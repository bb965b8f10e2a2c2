use vstd::prelude::*;
use crate::capabilities::opencl::OpenCLCapabilities;
use crate::capabilities::vaapi::VaapiCapabilities;
use crate::accel::opencl::{PadOpencl, TonemapOpencl};
use crate::ffmpeg_info::{FfmpegInfo, KnownVideoFilter};
use crate::frame_size::FrameSize;
use crate::output_settings::VideoFilterOptions;
use crate::pipeline::{opt_string_view, FrameState, FrameStateView, FrameSurface, HwPixelFormat, PixelFormat};
use crate::video_filter::{VideoFilter, 
    append_aspect, append_or, append_size, apply_rescaled, apply_sized, aspect_text, rescaled_state, size_text,
    sized_state, text_or, ForceOriginalAspectRatio,
};

verus! {

/// The VA-API driver in use.
#[derive(Debug, Clone, Copy, PartialEq, Eq, Structural)]
pub enum VaapiDriver {
    Ihd,
    I965,
    RadeonSI,
}

impl VaapiDriver {
    pub open spec fn spec_name(self) -> Seq<char> {
        match self {
            VaapiDriver::Ihd => "iHD"@,
            VaapiDriver::I965 => "i965"@,
            VaapiDriver::RadeonSI => "radeonsi"@,
        }
    }

    /// The driver's name, as LIBVA_DRIVER_NAME takes it.
    pub fn name(&self) -> (r: &'static str)
        ensures
            r@ == self.spec_name(),
    {
        match self {
            VaapiDriver::Ihd => "iHD",
            VaapiDriver::I965 => "i965",
            VaapiDriver::RadeonSI => "radeonsi",
        }
    }
}

/// VA-API acceleration on a render device.
pub struct Vaapi {
    pub device: String,
    pub driver: VaapiDriver,
    pub capabilities: VaapiCapabilities,
    pub opencl_capabilities: OpenCLCapabilities,
}

/// The hardware pad filters tried, in order: pad_vaapi, and pad_opencl when
/// OpenCL can pad.
pub open spec fn vaapi_pad_options(opencl: OpenCLCapabilities) -> Seq<KnownVideoFilter> {
    if opencl.spec_usable() {
        seq![KnownVideoFilter::PadVaapi, KnownVideoFilter::PadOpencl]
    } else {
        seq![KnownVideoFilter::PadVaapi]
    }
}

/// The hardware tonemap filters tried, in order: tonemap_opencl first when
/// OpenCL can tonemap, then tonemap_vaapi.
pub open spec fn vaapi_tonemap_options(opencl: OpenCLCapabilities) -> Seq<KnownVideoFilter> {
    if opencl.spec_usable() {
        seq![KnownVideoFilter::TonemapOpencl, KnownVideoFilter::TonemapVaapi]
    } else {
        seq![KnownVideoFilter::TonemapVaapi]
    }
}

/// The hardware format frames of a pixel format get: p010le for 10 bits, nv12 otherwise.
pub open spec fn default_output_format(pf: PixelFormat) -> HwPixelFormat {
    if pf.spec_bit_depth() == 10 { HwPixelFormat::P010le } else { HwPixelFormat::Nv12 }
}

impl Vaapi {
    /// Whether the driver can tonemap p010le frames into `out`.
    pub open spec fn spec_can_vaapi_tonemap(&self, pf: PixelFormat, out: HwPixelFormat) -> bool {
        pf == PixelFormat::P010le && (
            (out == HwPixelFormat::P010le && self.capabilities.spec_hdr_to_hdr(pf))
            || (out == HwPixelFormat::Nv12 && self.capabilities.spec_hdr_to_sdr(pf)))
    }

    /// The VA-API (or OpenCL) filter that stands in for `vf`: scale_vaapi for a
    /// scale of frames without alpha that the video processor takes; the best fit
    /// of the pad options;
    /// deinterlace_vaapi for interlaced frames the processor takes; the best fit
    /// of the tonemap options (tonemap_vaapi only where the driver can tonemap);
    /// `vf` itself otherwise.
    pub open spec fn spec_best_filter(&self, vf: VideoFilter, info: FfmpegInfo, s: FrameStateView, opts: VideoFilterOptions) -> VideoFilter {
        match vf {
            VideoFilter::Scale(f) => if info.spec_has_video_filter(KnownVideoFilter::ScaleVaapi)
                && !s.pixel_format.spec_has_alpha() && self.capabilities.spec_vpp_supports(s.pixel_format) {
                VideoFilter::ScaleVaapi(ScaleVaapi {
                    size: f.size,
                    input_is_anamorphic: f.input_is_anamorphic,
                    force_original_aspect_ratio: f.force_original_aspect_ratio,
                })
            } else {
                vf
            },
            VideoFilter::Pad(f) => match info.spec_best_fit(vaapi_pad_options(self.opencl_capabilities)) {
                Some(KnownVideoFilter::PadVaapi) => VideoFilter::PadVaapi(PadVaapi { size: f.size }),
                Some(KnownVideoFilter::PadOpencl) => VideoFilter::PadOpencl(PadOpencl { size: f.size }),
                _ => vf,
            },
            VideoFilter::Deinterlace(f) => if f.input_is_interlaced
                && info.spec_has_video_filter(KnownVideoFilter::DeinterlaceVaapi)
                && self.capabilities.spec_vpp_supports(s.pixel_format) {
                VideoFilter::DeinterlaceVaapi(DeinterlaceVaapi { mode: opts.deinterlace_vaapi.mode })
            } else {
                vf
            },
            VideoFilter::ToneMap(f) => {
                let out = default_output_format(f.output_format);
                match info.spec_best_fit(vaapi_tonemap_options(self.opencl_capabilities)) {
                    Some(KnownVideoFilter::TonemapOpencl) => VideoFilter::TonemapOpencl(TonemapOpencl {
                        algorithm: opts.tonemap_opencl.tonemap,
                        output_format: out,
                    }),
                    Some(KnownVideoFilter::TonemapVaapi) => if self.spec_can_vaapi_tonemap(s.pixel_format, out) {
                        VideoFilter::TonemapVaapi(TonemapVaapi { output_format: out })
                    } else {
                        vf
                    },
                    _ => vf,
                }
            },
            _ => vf,
        }
    }

    /// The filter to use for `vf` (see `spec_best_filter`).
    pub fn best_filter(&self, vf: &VideoFilter, info: &FfmpegInfo, state: &FrameState, opts: &VideoFilterOptions) -> (r: VideoFilter)
        ensures
            r == self.spec_best_filter(*vf, *info, state@, *opts),
    {
        match vf {
            VideoFilter::Scale(f) => if info.has_video_filter(&KnownVideoFilter::ScaleVaapi)
                && !state.pixel_format.has_alpha() && self.capabilities.vpp_supports_format(&state.pixel_format) {
                VideoFilter::ScaleVaapi(ScaleVaapi {
                    size: f.size,
                    input_is_anamorphic: f.input_is_anamorphic,
                    force_original_aspect_ratio: f.force_original_aspect_ratio,
                })
            } else {
                vf.duplicate()
            },
            VideoFilter::Pad(f) => {
                let mut pad_options: Vec<KnownVideoFilter> = Vec::new();
                pad_options.push(KnownVideoFilter::PadVaapi);
                if self.opencl_capabilities.can_pad() {
                    pad_options.push(KnownVideoFilter::PadOpencl);
                }
                assert(pad_options@ =~= vaapi_pad_options(self.opencl_capabilities));
                match info.find_best_fit(pad_options.as_slice()) {
                    Some(KnownVideoFilter::PadVaapi) => VideoFilter::PadVaapi(PadVaapi { size: f.size }),
                    Some(KnownVideoFilter::PadOpencl) => VideoFilter::PadOpencl(PadOpencl { size: f.size }),
                    _ => vf.duplicate(),
                }
            },
            VideoFilter::Deinterlace(f) => if f.input_is_interlaced
                && info.has_video_filter(&KnownVideoFilter::DeinterlaceVaapi)
                && self.capabilities.vpp_supports_format(&state.pixel_format) {
                VideoFilter::DeinterlaceVaapi(DeinterlaceVaapi {
                    mode: crate::pipeline::clone_opt_string(&opts.deinterlace_vaapi.mode),
                })
            } else {
                vf.duplicate()
            },
            VideoFilter::ToneMap(f) => {
                let out = if f.output_format.bit_depth() == 10 { HwPixelFormat::P010le } else { HwPixelFormat::Nv12 };
                let can_vaapi_tonemap = match (state.pixel_format, out) {
                    (PixelFormat::P010le, HwPixelFormat::P010le) => self.capabilities.can_hdr_to_hdr_tonemap(&state.pixel_format),
                    (PixelFormat::P010le, HwPixelFormat::Nv12) => self.capabilities.can_hdr_to_sdr_tonemap(&state.pixel_format),
                    _ => false,
                };
                let mut tonemap_options: Vec<KnownVideoFilter> = Vec::new();
                tonemap_options.push(KnownVideoFilter::TonemapVaapi);
                if self.opencl_capabilities.can_tonemap() {
                    tonemap_options.insert(0, KnownVideoFilter::TonemapOpencl);
                }
                assert(tonemap_options@ =~= vaapi_tonemap_options(self.opencl_capabilities));
                match info.find_best_fit(tonemap_options.as_slice()) {
                    Some(KnownVideoFilter::TonemapOpencl) => VideoFilter::TonemapOpencl(TonemapOpencl {
                        algorithm: crate::pipeline::clone_opt_string(&opts.tonemap_opencl.tonemap),
                        output_format: out,
                    }),
                    Some(KnownVideoFilter::TonemapVaapi) => if can_vaapi_tonemap {
                        VideoFilter::TonemapVaapi(TonemapVaapi { output_format: out })
                    } else {
                        vf.duplicate()
                    },
                    _ => vf.duplicate(),
                }
            },
            _ => vf.duplicate(),
        }
    }
}

/// Scaling on VA-API frames.
#[derive(Debug, Clone, Copy, PartialEq, Eq, Structural)]
pub struct ScaleVaapi {
    pub size: Option<FrameSize>,
    pub input_is_anamorphic: bool,
    pub force_original_aspect_ratio: Option<ForceOriginalAspectRatio>,
}

impl ScaleVaapi {
    pub open spec fn spec_apply(self, s: FrameStateView) -> FrameStateView {
        rescaled_state(s, self.size, FrameSurface::Vaapi)
    }

    pub open spec fn spec_arg(self) -> Option<Seq<char>> {
        match self.size {
            Some(sz) => Some((if self.input_is_anamorphic { "scale_vaapi=iw*sar:ih,scale_vaapi="@ } else { "scale_vaapi="@ })
                + size_text(sz) + aspect_text(self.force_original_aspect_ratio) + ":force_divisible_by=2,setsar=1"@),
            None => None,
        }
    }

    pub fn apply_to(&self, state: &mut FrameState)
        ensures
            final(state)@ == self.spec_apply(old(state)@),
    {
        apply_rescaled(state, self.size, FrameSurface::Vaapi);
    }

    pub fn as_arg(&self) -> (r: Option<String>)
        ensures
            opt_string_view(r) == self.spec_arg(),
    {
        match self.size {
            Some(sz) => {
                let mut s = if self.input_is_anamorphic {
                    "scale_vaapi=iw*sar:ih,scale_vaapi=".to_owned()
                } else {
                    "scale_vaapi=".to_owned()
                };
                append_size(&mut s, sz);
                append_aspect(&mut s, &self.force_original_aspect_ratio);
                s.append(":force_divisible_by=2,setsar=1");
                Some(s)
            },
            None => None,
        }
    }
}

/// Padding on VA-API frames.
#[derive(Debug, Clone, Copy, PartialEq, Eq, Structural)]
pub struct PadVaapi {
    pub size: Option<FrameSize>,
}

impl PadVaapi {
    pub open spec fn spec_apply(self, s: FrameStateView) -> FrameStateView {
        sized_state(s, self.size, FrameSurface::Vaapi)
    }

    pub open spec fn spec_arg(self) -> Option<Seq<char>> {
        match self.size {
            Some(sz) => Some("pad_vaapi="@ + size_text(sz) + ":-1:-1:color=black"@),
            None => None,
        }
    }

    pub fn apply_to(&self, state: &mut FrameState)
        ensures
            final(state)@ == self.spec_apply(old(state)@),
    {
        apply_sized(state, self.size, FrameSurface::Vaapi);
    }

    pub fn as_arg(&self) -> (r: Option<String>)
        ensures
            opt_string_view(r) == self.spec_arg(),
    {
        match self.size {
            Some(sz) => {
                let mut s = "pad_vaapi=".to_owned();
                append_size(&mut s, sz);
                s.append(":-1:-1:color=black");
                Some(s)
            },
            None => None,
        }
    }
}

/// Pixel format conversion on VA-API frames.
#[derive(Debug, Clone, Copy, PartialEq, Eq, Structural)]
pub struct FormatVaapi {
    pub format: PixelFormat,
}

impl FormatVaapi {
    pub open spec fn spec_apply(self, s: FrameStateView) -> FrameStateView {
        FrameStateView { pixel_format: self.format, ..s }
    }

    pub open spec fn spec_arg(self) -> Option<Seq<char>> {
        Some("scale_vaapi=format="@ + self.format.spec_name())
    }

    pub fn apply_to(&self, state: &mut FrameState)
        ensures
            final(state)@ == self.spec_apply(old(state)@),
    {
        state.pixel_format = self.format;
    }

    pub fn as_arg(&self) -> (r: Option<String>)
        ensures
            opt_string_view(r) == self.spec_arg(),
    {
        let mut s = "scale_vaapi=format=".to_owned();
        s.append(self.format.as_arg());
        Some(s)
    }
}

/// Tonemapping on VA-API frames.
#[derive(Debug, Clone, Copy, PartialEq, Eq, Structural)]
pub struct TonemapVaapi {
    pub output_format: HwPixelFormat,
}

impl TonemapVaapi {
    pub open spec fn spec_apply(self, s: FrameStateView) -> FrameStateView {
        FrameStateView { is_hdr: false, pixel_format: self.output_format.spec_format(), surface: FrameSurface::Vaapi, ..s }
    }

    pub open spec fn spec_arg(self) -> Option<Seq<char>> {
        Some("tonemap_vaapi=format="@ + self.output_format.spec_format().spec_name() + ":t=bt709:m=bt709:p=bt709"@)
    }

    pub fn apply_to(&self, state: &mut FrameState)
        ensures
            final(state)@ == self.spec_apply(old(state)@),
    {
        state.is_hdr = false;
        state.pixel_format = self.output_format.format();
        state.surface = FrameSurface::Vaapi;
    }

    pub fn as_arg(&self) -> (r: Option<String>)
        ensures
            opt_string_view(r) == self.spec_arg(),
    {
        let mut s = "tonemap_vaapi=format=".to_owned();
        s.append(self.output_format.as_arg());
        s.append(":t=bt709:m=bt709:p=bt709");
        Some(s)
    }
}

/// Overlaying on VA-API frames.
#[derive(Debug, Clone, Copy, PartialEq, Eq, Structural)]
pub struct VaapiOverlay;

/// Deinterlacing on VA-API frames.
pub struct DeinterlaceVaapi {
    /// The deinterlacing mode; 0 (the driver's default) when absent.
    pub mode: Option<String>,
}

impl DeinterlaceVaapi {
    pub open spec fn spec_apply(self, s: FrameStateView) -> FrameStateView {
        FrameStateView { is_interlaced: false, surface: FrameSurface::Vaapi, ..s }
    }

    pub open spec fn spec_arg(self) -> Option<Seq<char>> {
        Some("deinterlace_vaapi=mode="@ + text_or(self.mode, "0"@))
    }

    pub fn duplicate(&self) -> (r: DeinterlaceVaapi)
        ensures
            r == *self,
    {
        DeinterlaceVaapi { mode: crate::pipeline::clone_opt_string(&self.mode) }
    }

    pub fn apply_to(&self, state: &mut FrameState)
        ensures
            final(state)@ == self.spec_apply(old(state)@),
    {
        state.is_interlaced = false;
        state.surface = FrameSurface::Vaapi;
    }

    pub fn as_arg(&self) -> (r: Option<String>)
        ensures
            opt_string_view(r) == self.spec_arg(),
    {
        let mut s = "deinterlace_vaapi=mode=".to_owned();
        append_or(&mut s, &self.mode, "0");
        Some(s)
    }
}

} // verus!
