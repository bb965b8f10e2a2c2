use vstd::prelude::*;
use crate::accel::amf::Amf;
use crate::accel::cuda::{Cuda, CudaOverlay, FormatCuda, HwUploadCudaWorkaround};
use crate::accel::qsv::{FormatQsv, Qsv};
use crate::accel::rkmpp::{FormatRkrga, Rkmpp};
use crate::accel::vaapi::{default_output_format, FormatVaapi, Vaapi, VaapiDriver, VaapiOverlay};
use crate::accel::video_toolbox::VideoToolbox;
use crate::accel::vulkan::{FormatVulkan, Vulkan};
use crate::capabilities::{lists_depth};
use crate::capabilities::nvidia::encoder_for;
use crate::capabilities::vaapi::{RateControlMode, VA_ENTRYPOINT_ENC_SLICE, VA_ENTRYPOINT_ENC_SLICE_LP};
use crate::ffmpeg_info::{FfmpegInfo, KnownHardwareAccel, KnownVideoFilter};
use crate::filter_chain::{filter_views, PipelineFilter, PipelineFilterView};
use crate::frame_size::FrameSize;
use crate::output_settings::VideoFilterOptions;
use crate::overlay_filter::{OverlayFilter, OverlayFilterView, OverlayKind};
use crate::pipeline::{EnvironmentVariable, FrameState, FrameStateView, FrameSurface, HwPixelFormat, PixelFormat, SurfaceSet, VideoFormat};
use crate::probe::ProbeResultVideoStream;
use crate::text::{args1, args2, args4, args6, args8, extend_args, str_eq, views};
use crate::video_codec::{codec_view, VideoCodec, VideoCodecView};
use crate::video_filter::{HwMapFilter, VideoFilter};

verus! {

/// A hardware acceleration method and what is known of the hardware.
pub enum HardwareAccel {
    Amf(Amf),
    Cuda(Cuda),
    Qsv(Qsv),
    Rkmpp(Rkmpp),
    Vaapi(Vaapi),
    VideoToolbox(VideoToolbox),
    Vulkan(Vulkan),
}

/// How a hardware decoder is set up: its arguments, the filters that follow it,
/// and the surface its frames are on.
pub struct HwDecoder {
    pub args: Vec<String>,
    pub filters: Vec<PipelineFilter>,
    pub surface: FrameSurface,
}

/// The codec names a decoder takes by default at a bit depth.
pub open spec fn default_can_decode(codec: Seq<char>, bit_depth: u8) -> bool {
    if bit_depth == 10 {
        codec == "av1"@ || codec == "hevc"@
    } else if bit_depth == 8 {
        codec == "av1"@ || codec == "h264"@ || codec == "hevc"@ || codec == "mpeg2video"@
    } else {
        false
    }
}

/// The formats an encoder takes by default at a bit depth.
pub open spec fn default_can_encode(format: VideoFormat, bit_depth: u8) -> bool {
    if bit_depth == 10 {
        format == VideoFormat::Hevc
    } else if bit_depth == 8 {
        format == VideoFormat::H264 || format == VideoFormat::Hevc
    } else {
        false
    }
}

/// The format of a codec name: av1, h264, hevc, mpeg2video, vc1, vp8, vp9.
pub open spec fn format_named(codec: Seq<char>) -> Option<VideoFormat> {
    if codec == "av1"@ { Some(VideoFormat::Av1) }
    else if codec == "h264"@ { Some(VideoFormat::H264) }
    else if codec == "hevc"@ { Some(VideoFormat::Hevc) }
    else if codec == "mpeg2video"@ { Some(VideoFormat::Mpeg2Video) }
    else if codec == "vc1"@ { Some(VideoFormat::Vc1) }
    else if codec == "vp8"@ { Some(VideoFormat::Vp8) }
    else if codec == "vp9"@ { Some(VideoFormat::Vp9) }
    else { None }
}

/// The format of a codec name (see `format_named`).
pub fn format_of_codec(codec: &str) -> (r: Option<VideoFormat>)
    ensures
        r == format_named(codec@),
{
    if str_eq(codec, "av1") { Some(VideoFormat::Av1) }
    else if str_eq(codec, "h264") { Some(VideoFormat::H264) }
    else if str_eq(codec, "hevc") { Some(VideoFormat::Hevc) }
    else if str_eq(codec, "mpeg2video") { Some(VideoFormat::Mpeg2Video) }
    else if str_eq(codec, "vc1") { Some(VideoFormat::Vc1) }
    else if str_eq(codec, "vp8") { Some(VideoFormat::Vp8) }
    else if str_eq(codec, "vp9") { Some(VideoFormat::Vp9) }
    else { None }
}

/// A format taken by an accel's decoder, restricted to the listed formats.
pub open spec fn format_among(codec: Seq<char>, allowed: Set<VideoFormat>) -> Option<VideoFormat> {
    match format_named(codec) {
        Some(f) => if allowed.contains(f) { Some(f) } else { None },
        None => None,
    }
}

/// The view of an optional decoder.
pub struct HwDecoderView {
    pub args: Seq<Seq<char>>,
    pub filters: Seq<PipelineFilterView>,
    pub surface: FrameSurface,
}

impl View for HwDecoder {
    type V = HwDecoderView;

    open spec fn view(&self) -> HwDecoderView {
        HwDecoderView { args: views(self.args@), filters: filter_views(self.filters@), surface: self.surface }
    }
}

/// The decoder that uses `-hwaccel NAME -hwaccel_output_format OUT` and leaves frames on `surface`.
pub open spec fn plain_decoder(name: Seq<char>, out: Seq<char>, surface: FrameSurface) -> HwDecoderView {
    HwDecoderView { args: seq!["-hwaccel"@, name, "-hwaccel_output_format"@, out], filters: seq![], surface }
}

fn make_plain_decoder(name: &str, out: &str, surface: FrameSurface) -> (r: HwDecoder)
    ensures
        r@ == plain_decoder(name@, out@, surface),
{
    let r = HwDecoder { args: args4("-hwaccel", name, "-hwaccel_output_format", out), filters: Vec::new(), surface };
    assert(filter_views(r.filters@) =~= seq![]);
    r
}

/// The view of an optional decoder.
pub open spec fn opt_decoder_view(d: Option<HwDecoder>) -> Option<HwDecoderView> {
    match d {
        Some(d) => Some(d@),
        None => None,
    }
}

/// What a hardware method offers the pipeline: the filters, encoders and
/// decoders it has, and the arguments and environment ffmpeg needs for it.
pub trait HwAccel {
    /// The hwaccel ffmpeg must list for the method, if any.
    spec fn spec_known_accel(&self) -> Option<KnownHardwareAccel>;

    /// The hwaccel ffmpeg must list for the method, if any.
    fn known_accel(&self) -> (r: Option<KnownHardwareAccel>)
        ensures
            r == self.spec_known_accel();

    /// The filter the method uses in place of `vf` for frames in state `s`.
    spec fn spec_best_filter(&self, vf: VideoFilter, info: FfmpegInfo, s: FrameStateView, opts: VideoFilterOptions) -> VideoFilter;

    /// The filter to use in place of `vf` (see `spec_best_filter`).
    fn best_filter(&self, vf: &VideoFilter, info: &FfmpegInfo, state: &FrameState, opts: &VideoFilterOptions) -> (r: VideoFilter)
        ensures
            r == self.spec_best_filter(*vf, *info, state@, *opts);

    /// The overlay the method uses: a CUDA overlay in place of a software one for
    /// 8-bit frames when ffmpeg offers overlay_cuda; a VA-API overlay when ffmpeg
    /// offers overlay_vaapi and the driver overlays and takes bgra; the same
    /// overlay otherwise.
    spec fn spec_best_overlay(&self, o: OverlayFilterView, info: FfmpegInfo, s: FrameStateView) -> OverlayFilterView;

    /// The overlay to use (see `spec_best_overlay`).
    fn best_overlay(&self, o: &OverlayFilter, info: &FfmpegInfo, state: &FrameState) -> (r: OverlayFilter)
        ensures
            r@ == self.spec_best_overlay(o@, *info, state@);

    /// Whether the method decodes the codec and profile at the pixel format's bit depth.
    spec fn spec_can_decode(&self, codec: Seq<char>, profile: Seq<char>, pf: PixelFormat) -> bool;

    /// Whether the method decodes (see `spec_can_decode`).
    fn can_decode(&self, codec: &str, profile: &str, pixel_format: &PixelFormat) -> (r: bool)
        ensures
            r == self.spec_can_decode(codec@, profile@, *pixel_format);

    /// Whether the method encodes the format at the bit depth.
    spec fn spec_can_encode(&self, format: VideoFormat, bit_depth: u8) -> bool;

    /// Whether the method encodes (see `spec_can_encode`).
    fn can_encode(&self, format: &VideoFormat, bit_depth: u8) -> (r: bool)
        ensures
            r == self.spec_can_encode(*format, bit_depth);

    /// The encoder the method has for the format and bit depth, if any.
    spec fn spec_codec_for_format(&self, format: VideoFormat, bit_depth: u8, video_size: Option<FrameSize>) -> Option<VideoCodecView>;

    /// The encoder for the format (see `spec_codec_for_format`).
    fn codec_for_format(&self, format: &VideoFormat, bit_depth: u8, video_size: Option<FrameSize>) -> (r: Option<VideoCodec>)
        ensures
            crate::video_codec::opt_codec_view(r) == self.spec_codec_for_format(*format, bit_depth, video_size);

    /// The environment the method needs: the VA-API driver's name for VA-API.
    spec fn spec_envs(&self) -> Seq<(Seq<char>, Seq<char>)>;

    /// The environment variables the method needs (see `spec_envs`).
    fn envs(&self) -> (r: Vec<EnvironmentVariable>)
        ensures
            r@.len() == self.spec_envs().len(),
            forall|i: int| 0 <= i < r@.len() ==> (#[trigger] r@[i]).key@ == self.spec_envs()[i].0
                && r@[i].value@ == self.spec_envs()[i].1;

    /// The filter that converts pixel formats on the method's frames, if any.
    spec fn spec_format_filter(&self, pf: PixelFormat) -> Option<VideoFilter>;

    /// The pixel format conversion filter (see `spec_format_filter`).
    fn format_filter(&self, pixel_format: &PixelFormat) -> (r: Option<VideoFilter>)
        ensures
            r == self.spec_format_filter(*pixel_format);

    /// The filter that maps frames between two hardware surfaces: VA-API maps to
    /// OpenCL, and back in reverse; nothing else.
    spec fn spec_hw_map_filter(&self, from: FrameSurface, to: FrameSurface) -> Option<VideoFilter>;

    /// The mapping filter (see `spec_hw_map_filter`).
    fn hw_map_filter(&self, from: &FrameSurface, to: &FrameSurface) -> (r: Option<VideoFilter>)
        ensures
            r == self.spec_hw_map_filter(*from, *to);

    /// The arguments that set up the method's devices, given the surfaces in use.
    spec fn spec_init_hw_device(&self, surfaces: Set<FrameSurface>) -> Seq<Seq<char>>;

    /// The device set-up arguments (see `spec_init_hw_device`).
    fn init_hw_device(&self, surfaces: &SurfaceSet) -> (r: Vec<String>)
        ensures
            views(r@) == self.spec_init_hw_device(surfaces@);

    /// The hardware format the method's frames of a source format have: rkmpp
    /// has nv15 for 10 bits; the others p010le; nv12 for other depths.
    spec fn spec_output_format(&self, pf: PixelFormat) -> HwPixelFormat;

    /// The hardware format of decoded frames (see `spec_output_format`).
    fn output_format(&self, source_pixel_format: &PixelFormat) -> (r: HwPixelFormat)
        ensures
            r == self.spec_output_format(*source_pixel_format);

    /// Whether frames of the pixel format can be uploaded to the method's surface:
    /// QSV when its video processor takes the format, rkmpp for 8 bits, VA-API for
    /// nv12, p010le or what its processor takes; any format otherwise.
    spec fn spec_accepts_upload_format(&self, pf: PixelFormat) -> bool;

    /// Whether an upload takes the format (see `spec_accepts_upload_format`).
    fn accepts_upload_format(&self, pixel_format: &PixelFormat) -> (r: bool)
        ensures
            r == self.spec_accepts_upload_format(*pixel_format);

    /// Whether the method's format filter can produce the pixel format: rkmpp
    /// when ffmpeg offers scale_rkrga and for nv12 or nv15; VA-API when its
    /// processor takes the format; any format otherwise.
    spec fn spec_can_convert_pixel_format(&self, info: FfmpegInfo, pf: PixelFormat) -> bool;

    /// Whether the format filter can produce the format (see `spec_can_convert_pixel_format`).
    fn can_convert_pixel_format(&self, info: &FfmpegInfo, pixel_format: &PixelFormat) -> (r: bool)
        ensures
            r == self.spec_can_convert_pixel_format(*info, *pixel_format);

    /// The hardware decoder for the stream, if the method decodes it: CUDA always
    /// has one (Vulkan for HDR when ffmpeg offers vulkan and libplacebo, else CUDA
    /// followed by an upload that keeps frames on CUDA); AMF none; the others one
    /// when they decode the stream's codec, profile and bit depth.
    spec fn spec_make_decoder(&self, info: FfmpegInfo, codec: Seq<char>, profile: Seq<char>, pix_fmt: Seq<char>,
        is_hdr: bool) -> Option<HwDecoderView>;

    /// The hardware decoder for the stream (see `spec_make_decoder`).
    fn make_decoder(&self, info: &FfmpegInfo, stream: &ProbeResultVideoStream) -> (r: Option<HwDecoder>)
        ensures
            opt_decoder_view(r) == self.spec_make_decoder(*info, stream.codec@, stream.profile@, stream.pix_fmt@, stream.is_hdr);
}

impl HwAccel for HardwareAccel {
    open spec fn spec_known_accel(&self) -> Option<KnownHardwareAccel> {
        match self {
            HardwareAccel::Amf(_) => None,
            HardwareAccel::Cuda(_) => Some(KnownHardwareAccel::Cuda),
            HardwareAccel::Qsv(_) => Some(KnownHardwareAccel::Qsv),
            HardwareAccel::Rkmpp(_) => Some(KnownHardwareAccel::Rkmpp),
            HardwareAccel::Vaapi(_) => Some(KnownHardwareAccel::Vaapi),
            HardwareAccel::VideoToolbox(_) => Some(KnownHardwareAccel::VideoToolbox),
            HardwareAccel::Vulkan(_) => Some(KnownHardwareAccel::Vulkan),
        }
    }

    fn known_accel(&self) -> (r: Option<KnownHardwareAccel>) {
        match self {
            HardwareAccel::Amf(_) => None,
            HardwareAccel::Cuda(_) => Some(KnownHardwareAccel::Cuda),
            HardwareAccel::Qsv(_) => Some(KnownHardwareAccel::Qsv),
            HardwareAccel::Rkmpp(_) => Some(KnownHardwareAccel::Rkmpp),
            HardwareAccel::Vaapi(_) => Some(KnownHardwareAccel::Vaapi),
            HardwareAccel::VideoToolbox(_) => Some(KnownHardwareAccel::VideoToolbox),
            HardwareAccel::Vulkan(_) => Some(KnownHardwareAccel::Vulkan),
        }
    }

    /// The filter the method uses in place of `vf` for frames in state `s`.
    open spec fn spec_best_filter(&self, vf: VideoFilter, info: FfmpegInfo, s: FrameStateView, opts: VideoFilterOptions) -> VideoFilter {
        match self {
            HardwareAccel::Amf(_) => vf,
            HardwareAccel::Cuda(c) => c.spec_best_filter(vf, info, s),
            HardwareAccel::Qsv(q) => q.spec_best_filter(vf, info),
            HardwareAccel::Rkmpp(r) => r.spec_best_filter(vf, info, s),
            HardwareAccel::Vaapi(v) => v.spec_best_filter(vf, info, s, opts),
            HardwareAccel::VideoToolbox(t) => t.spec_best_filter(vf, info),
            HardwareAccel::Vulkan(v) => v.spec_best_filter(vf, info, s),
        }
    }

    fn best_filter(&self, vf: &VideoFilter, info: &FfmpegInfo, state: &FrameState, opts: &VideoFilterOptions) -> (r: VideoFilter) {
        match self {
            HardwareAccel::Amf(_) => vf.duplicate(),
            HardwareAccel::Cuda(c) => c.best_filter(vf, info, state),
            HardwareAccel::Qsv(q) => q.best_filter(vf, info),
            HardwareAccel::Rkmpp(r) => r.best_filter(vf, info, state),
            HardwareAccel::Vaapi(v) => v.best_filter(vf, info, state, opts),
            HardwareAccel::VideoToolbox(t) => t.best_filter(vf, info),
            HardwareAccel::Vulkan(v) => v.best_filter(vf, info, state),
        }
    }

    /// The overlay the method uses: a CUDA overlay in place of a software one for
    /// 8-bit frames when ffmpeg offers overlay_cuda; a VA-API overlay when ffmpeg
    /// offers overlay_vaapi and the driver overlays and takes bgra; the same
    /// overlay otherwise.
    open spec fn spec_best_overlay(&self, o: OverlayFilterView, info: FfmpegInfo, s: FrameStateView) -> OverlayFilterView {
        match self {
            HardwareAccel::Cuda(_) => if o.kind is Software && info.spec_has_video_filter(KnownVideoFilter::OverlayCuda)
                && s.pixel_format.spec_bit_depth() == 8 {
                OverlayFilterView { kind: OverlayKind::Cuda(CudaOverlay), ..o }
            } else {
                o
            },
            HardwareAccel::Vaapi(v) => if o.kind is Software && info.spec_has_video_filter(KnownVideoFilter::OverlayVaapi)
                && v.capabilities.can_overlay && v.capabilities.spec_vpp_supports(PixelFormat::Bgra) {
                OverlayFilterView { kind: OverlayKind::Vaapi(VaapiOverlay), ..o }
            } else {
                o
            },
            _ => o,
        }
    }

    fn best_overlay(&self, o: &OverlayFilter, info: &FfmpegInfo, state: &FrameState) -> (r: OverlayFilter) {
        match self {
            HardwareAccel::Cuda(_) => if matches!(o.kind, OverlayKind::Software(_)) && info.has_video_filter(&KnownVideoFilter::OverlayCuda)
                && state.pixel_format.bit_depth() == 8 {
                o.with_kind(OverlayKind::Cuda(CudaOverlay))
            } else {
                o.duplicate()
            },
            HardwareAccel::Vaapi(v) => if matches!(o.kind, OverlayKind::Software(_)) && info.has_video_filter(&KnownVideoFilter::OverlayVaapi)
                && v.capabilities.can_overlay && v.capabilities.vpp_supports_format(&PixelFormat::Bgra) {
                o.with_kind(OverlayKind::Vaapi(VaapiOverlay))
            } else {
                o.duplicate()
            },
            _ => o.duplicate(),
        }
    }

    /// Whether the method decodes the codec and profile at the pixel format's bit depth.
    open spec fn spec_can_decode(&self, codec: Seq<char>, profile: Seq<char>, pf: PixelFormat) -> bool {
        let bd = pf.spec_bit_depth();
        match self {
            HardwareAccel::Amf(_) | HardwareAccel::Vulkan(_) => default_can_decode(codec, bd),
            HardwareAccel::Cuda(c) => match format_named(codec) {
                Some(f) => lists_depth(c.capabilities.supported_decoders@, f, bd),
                None => false,
            },
            HardwareAccel::Qsv(q) => match format_among(codec, set![VideoFormat::H264, VideoFormat::Hevc]) {
                Some(f) => lists_depth(q.capabilities.supported_decoders@, f, bd),
                None => false,
            },
            HardwareAccel::Rkmpp(r) => match format_among(codec, set![VideoFormat::H264, VideoFormat::Hevc, VideoFormat::Vp8, VideoFormat::Vp9]) {
                Some(f) => r.capabilities.supported_decoders@.contains((f, bd)),
                None => false,
            },
            HardwareAccel::Vaapi(v) => v.capabilities.spec_can_decode(codec, profile, bd),
            HardwareAccel::VideoToolbox(t) => match format_among(codec, set![VideoFormat::Av1, VideoFormat::H264, VideoFormat::Hevc, VideoFormat::Vp9]) {
                Some(f) => t.capabilities.supported_decoders@.contains((f, bd)),
                None => false,
            },
        }
    }

    fn can_decode(&self, codec: &str, profile: &str, pixel_format: &PixelFormat) -> (r: bool) {
        let bd = pixel_format.bit_depth();
        match self {
            HardwareAccel::Amf(_) | HardwareAccel::Vulkan(_) => {
                if bd == 10 {
                    str_eq(codec, "av1") || str_eq(codec, "hevc")
                } else if bd == 8 {
                    str_eq(codec, "av1") || str_eq(codec, "h264") || str_eq(codec, "hevc") || str_eq(codec, "mpeg2video")
                } else {
                    false
                }
            },
            HardwareAccel::Cuda(c) => match format_of_codec(codec) {
                Some(f) => c.capabilities.can_decode(&f, bd),
                None => false,
            },
            HardwareAccel::Qsv(q) => match format_of_codec(codec) {
                Some(f) => match f {
                    VideoFormat::H264 | VideoFormat::Hevc => q.capabilities.can_decode(&f, bd),
                    _ => false,
                },
                None => false,
            },
            HardwareAccel::Rkmpp(r) => match format_of_codec(codec) {
                Some(f) => match f {
                    VideoFormat::H264 | VideoFormat::Hevc | VideoFormat::Vp8 | VideoFormat::Vp9 => r.capabilities.can_decode(&f, bd),
                    _ => false,
                },
                None => false,
            },
            HardwareAccel::Vaapi(v) => v.capabilities.can_decode(codec, profile, bd),
            HardwareAccel::VideoToolbox(t) => match format_of_codec(codec) {
                Some(f) => match f {
                    VideoFormat::Av1 | VideoFormat::H264 | VideoFormat::Hevc | VideoFormat::Vp9 => t.capabilities.can_decode(&f, bd),
                    _ => false,
                },
                None => false,
            },
        }
    }

    /// Whether the method encodes the format at the bit depth.
    open spec fn spec_can_encode(&self, format: VideoFormat, bit_depth: u8) -> bool {
        match self {
            HardwareAccel::Amf(_) | HardwareAccel::Vulkan(_) => default_can_encode(format, bit_depth),
            HardwareAccel::Cuda(c) => match encoder_for(c.capabilities.supported_encoders@, format) {
                Some(e) => e.bit_depths@.contains(bit_depth),
                None => false,
            },
            HardwareAccel::Qsv(q) => lists_depth(q.capabilities.supported_encoders@, format, bit_depth),
            HardwareAccel::Rkmpp(r) => r.capabilities.supported_encoders@.contains((format, bit_depth)),
            HardwareAccel::Vaapi(v) => v.capabilities.spec_can_encode(format, bit_depth, VA_ENTRYPOINT_ENC_SLICE)
                || v.capabilities.spec_can_encode(format, bit_depth, VA_ENTRYPOINT_ENC_SLICE_LP),
            HardwareAccel::VideoToolbox(t) => t.capabilities.supported_encoders@.contains((format, bit_depth)),
        }
    }

    fn can_encode(&self, format: &VideoFormat, bit_depth: u8) -> (r: bool) {
        match self {
            HardwareAccel::Amf(_) | HardwareAccel::Vulkan(_) => {
                if bit_depth == 10 {
                    *format == VideoFormat::Hevc
                } else if bit_depth == 8 {
                    *format == VideoFormat::H264 || *format == VideoFormat::Hevc
                } else {
                    false
                }
            },
            HardwareAccel::Cuda(c) => c.capabilities.can_encode(format, bit_depth),
            HardwareAccel::Qsv(q) => q.capabilities.can_encode(format, bit_depth),
            HardwareAccel::Rkmpp(r) => r.capabilities.can_encode(format, bit_depth),
            HardwareAccel::Vaapi(v) => v.capabilities.can_encode(format, bit_depth)
                || v.capabilities.can_encode_low_power(format, bit_depth),
            HardwareAccel::VideoToolbox(t) => t.capabilities.can_encode(format, bit_depth),
        }
    }

    /// The encoder the method has for the format and bit depth, if any.
    open spec fn spec_codec_for_format(&self, format: VideoFormat, bit_depth: u8, video_size: Option<FrameSize>) -> Option<VideoCodecView> {
        match self {
            HardwareAccel::Amf(_) => match format {
                VideoFormat::H264 => Some(hw_codec("h264_amf"@, seq![], FrameSurface::Amf)),
                VideoFormat::Hevc => Some(hw_codec("hevc_amf"@, seq!["-tag:v"@, "hvc1"@], FrameSurface::Amf)),
                _ => None,
            },
            HardwareAccel::Cuda(c) => match format {
                VideoFormat::H264 => Some(hw_codec("h264_nvenc"@, seq![], FrameSurface::Cuda)),
                VideoFormat::Hevc => {
                    let b_ref = match encoder_for(c.capabilities.supported_encoders@, format) {
                        Some(e) => e.b_frame_ref_mode,
                        None => false,
                    };
                    Some(hw_codec("hevc_nvenc"@, seq!["-tag:v"@, "hvc1"@, "-b_ref_mode"@, if b_ref { "1"@ } else { "0"@ }], FrameSurface::Cuda))
                },
                _ => None,
            },
            HardwareAccel::Qsv(_) => match format {
                VideoFormat::H264 => Some(hw_codec("h264_qsv"@, seq!["-low_power"@, "0"@, "-look_ahead"@, "0"@], FrameSurface::Qsv)),
                VideoFormat::Hevc => Some(hw_codec("hevc_qsv"@,
                    seq!["-low_power"@, "0"@, "-look_ahead"@, "0"@, "-tag:v"@, "hvc1"@], FrameSurface::Qsv)),
                _ => None,
            },
            HardwareAccel::Rkmpp(r) => if bit_depth == 8 && (format == VideoFormat::H264 || format == VideoFormat::Hevc)
                && r.capabilities.supported_encoders@.contains((format, 8u8)) {
                Some(codec_view(if format == VideoFormat::H264 { "h264_rkmpp"@ } else { "hevc_rkmpp"@ }, seq![],
                    Some(PixelFormat::Nv12), None, FrameSurface::Rkmpp))
            } else {
                None
            },
            HardwareAccel::Vaapi(v) => {
                let force_cqp = v.capabilities.spec_rate_control_mode(format, bit_depth) == Some(RateControlMode::Cqp);
                match format {
                    VideoFormat::H264 => Some(hw_codec("h264_vaapi"@, if force_cqp { seq!["-rc_mode"@, "1"@] } else { seq![] }, FrameSurface::Vaapi)),
                    VideoFormat::Hevc => Some(hw_codec("hevc_vaapi"@, vaapi_hevc_options(force_cqp, v.driver, video_size), FrameSurface::Vaapi)),
                    _ => None,
                }
            },
            HardwareAccel::VideoToolbox(t) => if (format == VideoFormat::H264 || format == VideoFormat::Hevc)
                && t.capabilities.supported_encoders@.contains((format, 8u8)) {
                Some(hw_codec(if format == VideoFormat::H264 { "h264_videotoolbox"@ } else { "hevc_videotoolbox"@ }, seq![], FrameSurface::VideoToolbox))
            } else {
                None
            },
            HardwareAccel::Vulkan(_) => match format {
                VideoFormat::H264 => Some(hw_codec("h264_vulkan"@, seq![], FrameSurface::Vulkan)),
                VideoFormat::Hevc => Some(hw_codec("hevc_vulkan"@, seq!["-tag:v"@, "hvc1"@], FrameSurface::Vulkan)),
                _ => None,
            },
        }
    }

    fn codec_for_format(&self, format: &VideoFormat, bit_depth: u8, video_size: Option<FrameSize>) -> (r: Option<VideoCodec>) {
        match self {
            HardwareAccel::Amf(_) => match format {
                VideoFormat::H264 => {
                    let o: Vec<String> = Vec::new();
                    assert(views(o@) =~= seq![]);
                    Some(make_hw_codec("h264_amf", o, FrameSurface::Amf))
                },
                VideoFormat::Hevc => Some(make_hw_codec("hevc_amf", args2("-tag:v", "hvc1"), FrameSurface::Amf)),
                _ => None,
            },
            HardwareAccel::Cuda(c) => match format {
                VideoFormat::H264 => {
                    let o: Vec<String> = Vec::new();
                    assert(views(o@) =~= seq![]);
                    Some(make_hw_codec("h264_nvenc", o, FrameSurface::Cuda))
                },
                VideoFormat::Hevc => {
                    let b_ref = c.capabilities.b_frame_ref_mode(format);
                    let o = if b_ref { args4("-tag:v", "hvc1", "-b_ref_mode", "1") } else { args4("-tag:v", "hvc1", "-b_ref_mode", "0") };
                    Some(make_hw_codec("hevc_nvenc", o, FrameSurface::Cuda))
                },
                _ => None,
            },
            HardwareAccel::Qsv(_) => match format {
                VideoFormat::H264 => Some(make_hw_codec("h264_qsv", args4("-low_power", "0", "-look_ahead", "0"), FrameSurface::Qsv)),
                VideoFormat::Hevc => Some(make_hw_codec("hevc_qsv",
                    args6("-low_power", "0", "-look_ahead", "0", "-tag:v", "hvc1"), FrameSurface::Qsv)),
                _ => None,
            },
            HardwareAccel::Rkmpp(r) => {
                if bit_depth == 8 && (*format == VideoFormat::H264 || *format == VideoFormat::Hevc)
                    && r.capabilities.can_encode(format, 8) {
                    let o: Vec<String> = Vec::new();
                    assert(views(o@) =~= seq![]);
                    Some(VideoCodec {
                        codec_name: if *format == VideoFormat::H264 { "h264_rkmpp" } else { "hevc_rkmpp" },
                        options: o,
                        preferred_pixel_format_8bit: Some(PixelFormat::Nv12),
                        preferred_pixel_format_10bit: None,
                        preferred_surface: FrameSurface::Rkmpp,
                    })
                } else {
                    None
                }
            },
            HardwareAccel::Vaapi(v) => {
                let force_cqp = match v.capabilities.rate_control_mode_for(format, bit_depth) {
                    Some(RateControlMode::Cqp) => true,
                    None => false,
                };
                match format {
                    VideoFormat::H264 => {
                        let o = if force_cqp {
                            args2("-rc_mode", "1")
                        } else {
                            let o: Vec<String> = Vec::new();
                            assert(views(o@) =~= seq![]);
                            o
                        };
                        Some(make_hw_codec("h264_vaapi", o, FrameSurface::Vaapi))
                    },
                    VideoFormat::Hevc => {
                        let mut o: Vec<String> = Vec::new();
                        assert(views(o@) =~= seq![]);
                        if force_cqp {
                            let a = args2("-rc_mode", "1");
                            extend_args(&mut o, &a);
                        }
                        let at_1080 = match video_size {
                            Some(sz) => sz.height == 1080,
                            None => false,
                        };
                        if v.driver == VaapiDriver::RadeonSI && at_1080 {
                            let a = args2("-bsf:v", "hevc_metadata=crop_bottom=8");
                            extend_args(&mut o, &a);
                        }
                        assert(views(o@) =~= vaapi_hevc_options(force_cqp, v.driver, video_size));
                        Some(make_hw_codec("hevc_vaapi", o, FrameSurface::Vaapi))
                    },
                    _ => None,
                }
            },
            HardwareAccel::VideoToolbox(t) => {
                if (*format == VideoFormat::H264 || *format == VideoFormat::Hevc) && t.capabilities.can_encode(format, 8) {
                    let o: Vec<String> = Vec::new();
                    assert(views(o@) =~= seq![]);
                    Some(make_hw_codec(if *format == VideoFormat::H264 { "h264_videotoolbox" } else { "hevc_videotoolbox" }, o, FrameSurface::VideoToolbox))
                } else {
                    None
                }
            },
            HardwareAccel::Vulkan(_) => match format {
                VideoFormat::H264 => {
                    let o: Vec<String> = Vec::new();
                    assert(views(o@) =~= seq![]);
                    Some(make_hw_codec("h264_vulkan", o, FrameSurface::Vulkan))
                },
                VideoFormat::Hevc => Some(make_hw_codec("hevc_vulkan", args2("-tag:v", "hvc1"), FrameSurface::Vulkan)),
                _ => None,
            },
        }
    }

    /// The environment the method needs: the VA-API driver's name for VA-API.
    open spec fn spec_envs(&self) -> Seq<(Seq<char>, Seq<char>)> {
        match self {
            HardwareAccel::Vaapi(v) => seq![("LIBVA_DRIVER_NAME"@, v.driver.spec_name())],
            _ => seq![],
        }
    }

    fn envs(&self) -> (r: Vec<EnvironmentVariable>) {
        let mut r: Vec<EnvironmentVariable> = Vec::new();
        match self {
            HardwareAccel::Vaapi(v) => {
                r.push(EnvironmentVariable { key: "LIBVA_DRIVER_NAME".to_owned(), value: v.driver.name().to_owned() });
            },
            _ => {},
        }
        r
    }

    /// The filter that converts pixel formats on the method's frames, if any.
    open spec fn spec_format_filter(&self, pf: PixelFormat) -> Option<VideoFilter> {
        match self {
            HardwareAccel::Cuda(_) => Some(VideoFilter::FormatCuda(FormatCuda { format: pf })),
            HardwareAccel::Qsv(_) => Some(VideoFilter::FormatQsv(FormatQsv { format: pf })),
            HardwareAccel::Rkmpp(_) => Some(VideoFilter::FormatRkrga(FormatRkrga { format: pf })),
            HardwareAccel::Vaapi(_) => Some(VideoFilter::FormatVaapi(FormatVaapi { format: pf })),
            HardwareAccel::Vulkan(_) => Some(VideoFilter::FormatVulkan(FormatVulkan { format: pf })),
            _ => None,
        }
    }

    fn format_filter(&self, pixel_format: &PixelFormat) -> (r: Option<VideoFilter>) {
        match self {
            HardwareAccel::Cuda(_) => Some(VideoFilter::FormatCuda(FormatCuda { format: *pixel_format })),
            HardwareAccel::Qsv(_) => Some(VideoFilter::FormatQsv(FormatQsv { format: *pixel_format })),
            HardwareAccel::Rkmpp(_) => Some(VideoFilter::FormatRkrga(FormatRkrga { format: *pixel_format })),
            HardwareAccel::Vaapi(_) => Some(VideoFilter::FormatVaapi(FormatVaapi { format: *pixel_format })),
            HardwareAccel::Vulkan(_) => Some(VideoFilter::FormatVulkan(FormatVulkan { format: *pixel_format })),
            _ => None,
        }
    }

    /// The filter that maps frames between two hardware surfaces: VA-API maps to
    /// OpenCL, and back in reverse; nothing else.
    open spec fn spec_hw_map_filter(&self, from: FrameSurface, to: FrameSurface) -> Option<VideoFilter> {
        match self {
            HardwareAccel::Vaapi(_) => if from == FrameSurface::Vaapi && to == FrameSurface::OpenCL {
                Some(VideoFilter::HwMap(HwMapFilter { from_surface: from, to_surface: to, reverse: false }))
            } else if from == FrameSurface::OpenCL && to == FrameSurface::Vaapi {
                Some(VideoFilter::HwMap(HwMapFilter { from_surface: from, to_surface: to, reverse: true }))
            } else {
                None
            },
            _ => None,
        }
    }

    fn hw_map_filter(&self, from: &FrameSurface, to: &FrameSurface) -> (r: Option<VideoFilter>) {
        match self {
            HardwareAccel::Vaapi(_) => match (from, to) {
                (FrameSurface::Vaapi, FrameSurface::OpenCL) => Some(VideoFilter::HwMap(HwMapFilter { from_surface: *from, to_surface: *to, reverse: false })),
                (FrameSurface::OpenCL, FrameSurface::Vaapi) => Some(VideoFilter::HwMap(HwMapFilter { from_surface: *from, to_surface: *to, reverse: true })),
                _ => None,
            },
            _ => None,
        }
    }

    /// The arguments that set up the method's devices, given the surfaces in use.
    open spec fn spec_init_hw_device(&self, surfaces: Set<FrameSurface>) -> Seq<Seq<char>> {
        match self {
            HardwareAccel::Amf(_) | HardwareAccel::VideoToolbox(_) => seq![],
            HardwareAccel::Cuda(_) => if surfaces.contains(FrameSurface::Vulkan) {
                seq!["-init_hw_device"@, "cuda=nv"@, "-init_hw_device"@, "vulkan=vk@nv"@]
            } else {
                seq!["-init_hw_device"@, "cuda"@]
            },
            HardwareAccel::Qsv(_) => seq!["-init_hw_device"@, "qsv=hw"@, "-filter_hw_device"@, "hw"@],
            HardwareAccel::Rkmpp(_) => seq!["-init_hw_device"@, "rkmpp=hw"@, "-filter_hw_device"@, "hw"@],
            HardwareAccel::Vaapi(v) => if surfaces.contains(FrameSurface::OpenCL) {
                seq!["-init_hw_device"@, "vaapi=va:"@ + v.device@, "-init_hw_device"@, "opencl=ocl@va"@,
                    "-hwaccel_device"@, "va"@, "-filter_hw_device"@, "va"@]
            } else {
                seq!["-vaapi_device"@, v.device@]
            },
            HardwareAccel::Vulkan(_) => seq!["-init_hw_device"@, "vulkan"@],
        }
    }

    fn init_hw_device(&self, surfaces: &SurfaceSet) -> (r: Vec<String>) {
        match self {
            HardwareAccel::Amf(_) | HardwareAccel::VideoToolbox(_) => {
                let o: Vec<String> = Vec::new();
                assert(views(o@) =~= seq![]);
                o
            },
            HardwareAccel::Cuda(_) => if surfaces.contains(&FrameSurface::Vulkan) {
                args4("-init_hw_device", "cuda=nv", "-init_hw_device", "vulkan=vk@nv")
            } else {
                args2("-init_hw_device", "cuda")
            },
            HardwareAccel::Qsv(_) => args4("-init_hw_device", "qsv=hw", "-filter_hw_device", "hw"),
            HardwareAccel::Rkmpp(_) => args4("-init_hw_device", "rkmpp=hw", "-filter_hw_device", "hw"),
            HardwareAccel::Vaapi(v) => if surfaces.contains(&FrameSurface::OpenCL) {
                let mut dev = "vaapi=va:".to_owned();
                dev.append(v.device.as_str());
                args8("-init_hw_device", dev.as_str(), "-init_hw_device", "opencl=ocl@va", "-hwaccel_device", "va",
                    "-filter_hw_device", "va")
            } else {
                args2("-vaapi_device", v.device.as_str())
            },
            HardwareAccel::Vulkan(_) => args2("-init_hw_device", "vulkan"),
        }
    }

    /// The hardware format the method's frames of a source format have: rkmpp
    /// has nv15 for 10 bits; the others p010le; nv12 for other depths.
    open spec fn spec_output_format(&self, pf: PixelFormat) -> HwPixelFormat {
        match self {
            HardwareAccel::Rkmpp(_) => if pf.spec_bit_depth() == 10 { HwPixelFormat::Nv15 } else { HwPixelFormat::Nv12 },
            _ => default_output_format(pf),
        }
    }

    fn output_format(&self, source_pixel_format: &PixelFormat) -> (r: HwPixelFormat) {
        let ten = source_pixel_format.bit_depth() == 10;
        match self {
            HardwareAccel::Rkmpp(_) => if ten { HwPixelFormat::Nv15 } else { HwPixelFormat::Nv12 },
            _ => if ten { HwPixelFormat::P010le } else { HwPixelFormat::Nv12 },
        }
    }

    /// Whether frames of the pixel format can be uploaded to the method's surface:
    /// QSV when its video processor takes the format, rkmpp for 8 bits, VA-API for
    /// nv12, p010le or what its processor takes; any format otherwise.
    open spec fn spec_accepts_upload_format(&self, pf: PixelFormat) -> bool {
        match self {
            HardwareAccel::Qsv(q) => q.capabilities.spec_vpp_supports(pf),
            HardwareAccel::Rkmpp(_) => pf.spec_bit_depth() == 8,
            HardwareAccel::Vaapi(v) => pf == PixelFormat::Nv12 || pf == PixelFormat::P010le
                || v.capabilities.spec_vpp_supports(pf),
            _ => true,
        }
    }

    fn accepts_upload_format(&self, pixel_format: &PixelFormat) -> (r: bool) {
        match self {
            HardwareAccel::Qsv(q) => q.capabilities.vpp_supports_format(pixel_format),
            HardwareAccel::Rkmpp(_) => pixel_format.bit_depth() == 8,
            HardwareAccel::Vaapi(v) => *pixel_format == PixelFormat::Nv12 || *pixel_format == PixelFormat::P010le
                || v.capabilities.vpp_supports_format(pixel_format),
            _ => true,
        }
    }

    /// Whether the method's format filter can produce the pixel format: rkmpp
    /// when ffmpeg offers scale_rkrga and for nv12 or nv15; VA-API when its
    /// processor takes the format; any format otherwise.
    open spec fn spec_can_convert_pixel_format(&self, info: FfmpegInfo, pf: PixelFormat) -> bool {
        match self {
            HardwareAccel::Rkmpp(_) => info.spec_has_video_filter(KnownVideoFilter::ScaleRkrga)
                && (pf == PixelFormat::Nv12 || pf == PixelFormat::Nv15),
            HardwareAccel::Vaapi(v) => v.capabilities.spec_vpp_supports(pf),
            _ => true,
        }
    }

    fn can_convert_pixel_format(&self, info: &FfmpegInfo, pixel_format: &PixelFormat) -> (r: bool) {
        match self {
            HardwareAccel::Rkmpp(_) => info.has_video_filter(&KnownVideoFilter::ScaleRkrga)
                && (*pixel_format == PixelFormat::Nv12 || *pixel_format == PixelFormat::Nv15),
            HardwareAccel::Vaapi(v) => v.capabilities.vpp_supports_format(pixel_format),
            _ => true,
        }
    }

    /// The hardware decoder for the stream, if the method decodes it: CUDA always
    /// has one (Vulkan for HDR when ffmpeg offers vulkan and libplacebo, else CUDA
    /// followed by an upload that keeps frames on CUDA); AMF none; the others one
    /// when they decode the stream's codec, profile and bit depth.
    open spec fn spec_make_decoder(&self, info: FfmpegInfo, codec: Seq<char>, profile: Seq<char>, pix_fmt: Seq<char>,
        is_hdr: bool) -> Option<HwDecoderView> {
        let decodes = self.spec_can_decode(codec, profile, PixelFormat::spec_parse(pix_fmt));
        match self {
            HardwareAccel::Amf(_) => None,
            HardwareAccel::Cuda(_) => if is_hdr && info.spec_has_hw_accel(KnownHardwareAccel::Vulkan)
                && info.spec_has_video_filter(KnownVideoFilter::LibPlacebo) {
                Some(plain_decoder("vulkan"@, "vulkan"@, FrameSurface::Vulkan))
            } else {
                Some(HwDecoderView {
                    filters: seq![PipelineFilterView::Video(VideoFilter::HwUploadCudaWorkaround(HwUploadCudaWorkaround))],
                    ..plain_decoder("cuda"@, "cuda"@, FrameSurface::Cuda)
                })
            },
            HardwareAccel::Qsv(_) => if decodes { Some(plain_decoder("qsv"@, "qsv"@, FrameSurface::Qsv)) } else { None },
            HardwareAccel::Rkmpp(_) => if decodes { Some(plain_decoder("rkmpp"@, "drm_prime"@, FrameSurface::Rkmpp)) } else { None },
            HardwareAccel::Vaapi(_) => if decodes { Some(plain_decoder("vaapi"@, "vaapi"@, FrameSurface::Vaapi)) } else { None },
            HardwareAccel::VideoToolbox(_) => if decodes {
                Some(plain_decoder("videotoolbox"@, "videotoolbox_vld"@, FrameSurface::VideoToolbox))
            } else {
                None
            },
            HardwareAccel::Vulkan(_) => if decodes { Some(plain_decoder("vulkan"@, "vulkan"@, FrameSurface::Vulkan)) } else { None },
        }
    }

    fn make_decoder(&self, info: &FfmpegInfo, stream: &ProbeResultVideoStream) -> (r: Option<HwDecoder>) {
        match self {
            HardwareAccel::Amf(_) => None,
            HardwareAccel::Cuda(_) => if stream.is_hdr && info.has_hw_accel(&KnownHardwareAccel::Vulkan)
                && info.has_video_filter(&KnownVideoFilter::LibPlacebo) {
                Some(make_plain_decoder("vulkan", "vulkan", FrameSurface::Vulkan))
            } else {
                let mut d = make_plain_decoder("cuda", "cuda", FrameSurface::Cuda);
                d.filters.push(PipelineFilter::Video(VideoFilter::HwUploadCudaWorkaround(HwUploadCudaWorkaround)));
                assert(filter_views(d.filters@) =~= seq![PipelineFilterView::Video(VideoFilter::HwUploadCudaWorkaround(HwUploadCudaWorkaround))]);
                Some(d)
            },
            _ => {
                let pf = PixelFormat::parse(stream.pix_fmt.as_str());
                if self.can_decode(stream.codec.as_str(), stream.profile.as_str(), &pf) {
                    match self {
                        HardwareAccel::Qsv(_) => Some(make_plain_decoder("qsv", "qsv", FrameSurface::Qsv)),
                        HardwareAccel::Rkmpp(_) => Some(make_plain_decoder("rkmpp", "drm_prime", FrameSurface::Rkmpp)),
                        HardwareAccel::Vaapi(_) => Some(make_plain_decoder("vaapi", "vaapi", FrameSurface::Vaapi)),
                        HardwareAccel::VideoToolbox(_) => Some(make_plain_decoder("videotoolbox", "videotoolbox_vld", FrameSurface::VideoToolbox)),
                        _ => Some(make_plain_decoder("vulkan", "vulkan", FrameSurface::Vulkan)),
                    }
                } else {
                    None
                }
            },
        }
    }
}


/// The codec an accel uses: `NAME` with `options`, nv12/p010le preferred, on `surface`.
pub open spec fn hw_codec(name: Seq<char>, options: Seq<Seq<char>>, surface: FrameSurface) -> VideoCodecView {
    codec_view(name, options, Some(PixelFormat::Nv12), Some(PixelFormat::P010le), surface)
}

fn make_hw_codec(name: &'static str, options: Vec<String>, surface: FrameSurface) -> (r: VideoCodec)
    ensures
        r@ == hw_codec(name@, views(options@), surface),
{
    VideoCodec {
        codec_name: name,
        options,
        preferred_pixel_format_8bit: Some(PixelFormat::Nv12),
        preferred_pixel_format_10bit: Some(PixelFormat::P010le),
        preferred_surface: surface,
    }
}

/// The options of the VA-API HEVC encoder: forced CQP, and for radeonsi at 1080
/// lines a crop of the bottom 8 lines in the metadata.
pub open spec fn vaapi_hevc_options(force_cqp: bool, driver: VaapiDriver, video_size: Option<FrameSize>) -> Seq<Seq<char>> {
    (if force_cqp { seq!["-rc_mode"@, "1"@] } else { seq![] })
        + (if driver == VaapiDriver::RadeonSI && (video_size matches Some(sz) && sz.height == 1080) {
            seq!["-bsf:v"@, "hevc_metadata=crop_bottom=8"@]
        } else {
            seq![]
        })
}


/// A copy of a list of formats with their bit depths.
fn dup_depth_list(v: &Vec<(VideoFormat, Vec<u8>)>) -> (r: Vec<(VideoFormat, Vec<u8>)>)
    ensures
        r@.len() == v@.len(),
        forall|i: int| 0 <= i < v@.len() ==> (#[trigger] r@[i]).0 == v@[i].0 && r@[i].1@ == v@[i].1@,
{
    let mut r: Vec<(VideoFormat, Vec<u8>)> = Vec::new();
    let mut i: usize = 0;
    while i < v.len()
        invariant
            i <= v.len(),
            r@.len() == i,
            forall|j: int| 0 <= j < i ==> (#[trigger] r@[j]).0 == v@[j].0 && r@[j].1@ == v@[j].1@,
        decreases v.len() - i,
    {
        let (f, d) = &v[i];
        let c = d.clone();
        assert(c@ =~= d@);
        r.push((*f, c));
        i = i + 1;
    }
    r
}

/// A copy of a list of formats with their encoder capabilities.
fn dup_encoder_list(v: &Vec<(VideoFormat, crate::capabilities::nvidia::EncoderCapability)>)
    -> (r: Vec<(VideoFormat, crate::capabilities::nvidia::EncoderCapability)>)
    ensures
        r@.len() == v@.len(),
        forall|i: int| 0 <= i < v@.len() ==> (#[trigger] r@[i]).0 == v@[i].0
            && r@[i].1.bit_depths@ == v@[i].1.bit_depths@ && r@[i].1.b_frame_ref_mode == v@[i].1.b_frame_ref_mode,
{
    let mut r: Vec<(VideoFormat, crate::capabilities::nvidia::EncoderCapability)> = Vec::new();
    let mut i: usize = 0;
    while i < v.len()
        invariant
            i <= v.len(),
            r@.len() == i,
            forall|j: int| 0 <= j < i ==> (#[trigger] r@[j]).0 == v@[j].0
                && r@[j].1.bit_depths@ == v@[j].1.bit_depths@ && r@[j].1.b_frame_ref_mode == v@[j].1.b_frame_ref_mode,
        decreases v.len() - i,
    {
        let (f, c) = &v[i];
        let d = c.bit_depths.clone();
        assert(d@ =~= c.bit_depths@);
        r.push((*f, crate::capabilities::nvidia::EncoderCapability { bit_depths: d, b_frame_ref_mode: c.b_frame_ref_mode }));
        i = i + 1;
    }
    r
}

impl HardwareAccel {
    /// The name ffmpeg gives the method: amf, cuda, qsv, rkmpp, vaapi,
    /// videotoolbox, vulkan.
    pub open spec fn spec_name(&self) -> Seq<char> {
        match self {
            HardwareAccel::Amf(_) => "amf"@,
            HardwareAccel::Cuda(_) => "cuda"@,
            HardwareAccel::Qsv(_) => "qsv"@,
            HardwareAccel::Rkmpp(_) => "rkmpp"@,
            HardwareAccel::Vaapi(_) => "vaapi"@,
            HardwareAccel::VideoToolbox(_) => "videotoolbox"@,
            HardwareAccel::Vulkan(_) => "vulkan"@,
        }
    }

    /// The method's name.
    pub fn name(&self) -> (r: &'static str)
        ensures
            r@ == self.spec_name(),
    {
        match self {
            HardwareAccel::Amf(_) => "amf",
            HardwareAccel::Cuda(_) => "cuda",
            HardwareAccel::Qsv(_) => "qsv",
            HardwareAccel::Rkmpp(_) => "rkmpp",
            HardwareAccel::Vaapi(_) => "vaapi",
            HardwareAccel::VideoToolbox(_) => "videotoolbox",
            HardwareAccel::Vulkan(_) => "vulkan",
        }
    }

    /// A copy of the method, with copies of what is known of the hardware.
    pub(crate) fn duplicate(&self) -> (r: HardwareAccel)
        ensures
            r.spec_name() == self.spec_name(),
            forall|pf: PixelFormat| r.spec_output_format(pf) == self.spec_output_format(pf),
    {
        match self {
            HardwareAccel::Amf(_) => HardwareAccel::Amf(Amf),
            HardwareAccel::Cuda(c) => HardwareAccel::Cuda(Cuda {
                capabilities: crate::capabilities::nvidia::NvidiaCapabilities {
                    supported_decoders: dup_depth_list(&c.capabilities.supported_decoders),
                    supported_encoders: dup_encoder_list(&c.capabilities.supported_encoders),
                },
            }),
            HardwareAccel::Qsv(q) => HardwareAccel::Qsv(Qsv {
                capabilities: crate::capabilities::qsv::QsvCapabilities {
                    supported_decoders: dup_depth_list(&q.capabilities.supported_decoders),
                    supported_encoders: dup_depth_list(&q.capabilities.supported_encoders),
                    vpp_pixel_formats: q.capabilities.vpp_pixel_formats.clone(),
                },
            }),
            HardwareAccel::Rkmpp(r) => HardwareAccel::Rkmpp(Rkmpp {
                capabilities: crate::capabilities::rkmpp::RkmppCapabilities {
                    supported_decoders: r.capabilities.supported_decoders.clone(),
                    supported_encoders: r.capabilities.supported_encoders.clone(),
                },
            }),
            HardwareAccel::Vaapi(v) => HardwareAccel::Vaapi(Vaapi {
                device: v.device.clone(),
                driver: v.driver,
                capabilities: crate::capabilities::vaapi::VaapiCapabilities {
                    vendor: v.capabilities.vendor.clone(),
                    supported: v.capabilities.supported.clone(),
                    vpp_pixel_formats: v.capabilities.vpp_pixel_formats.clone(),
                    can_hdr_to_sdr_tonemap: v.capabilities.can_hdr_to_sdr_tonemap.clone(),
                    can_hdr_to_hdr_tonemap: v.capabilities.can_hdr_to_hdr_tonemap.clone(),
                    can_overlay: v.capabilities.can_overlay,
                    rate_control: v.capabilities.rate_control.clone(),
                },
                opencl_capabilities: crate::capabilities::opencl::OpenCLCapabilities {
                    platform_count: v.opencl_capabilities.platform_count,
                    gpu_device_count: v.opencl_capabilities.gpu_device_count,
                },
            }),
            HardwareAccel::VideoToolbox(t) => HardwareAccel::VideoToolbox(VideoToolbox {
                capabilities: crate::capabilities::videotoolbox::VideoToolboxCapabilities {
                    supported_decoders: t.capabilities.supported_decoders.clone(),
                    supported_encoders: t.capabilities.supported_encoders.clone(),
                },
            }),
            HardwareAccel::Vulkan(_) => HardwareAccel::Vulkan(Vulkan),
        }
    }
}

} // verus!
