use vstd::prelude::*;
use crate::capabilities::nvidia::NvidiaCapabilities;
use crate::ffmpeg_info::{FfmpegInfo, KnownVideoFilter};
use crate::frame_size::FrameSize;
use crate::pipeline::{opt_string_view, FrameState, FrameStateView, FrameSurface, PixelFormat};
use crate::video_filter::{VideoFilter, 
    append_aspect, append_or, append_size, apply_rescaled, apply_sized, aspect_text, rescaled_state, size_text,
    sized_state, text_or, ForceOriginalAspectRatio,
};

verus! {

/// NVIDIA acceleration (CUDA frames, NVDEC and NVENC).
pub struct Cuda {
    pub capabilities: NvidiaCapabilities,
}

/// The CUDA deinterlacers, in the order they are tried.
pub open spec fn cuda_deinterlacers() -> Seq<KnownVideoFilter> {
    seq![KnownVideoFilter::YadifCuda, KnownVideoFilter::BwdifCuda]
}

impl Cuda {
    /// The CUDA filter that stands in for `vf`: scale_cuda for a scale of frames
    /// without alpha, pad_cuda for a pad (each when ffmpeg offers it),
    /// libplacebo for tonemapping HDR Vulkan frames, the best fit of yadif_cuda
    /// and bwdif_cuda for a deinterlace; `vf` itself otherwise.
    pub open spec fn spec_best_filter(&self, vf: VideoFilter, info: FfmpegInfo, s: FrameStateView) -> VideoFilter {
        match vf {
            VideoFilter::Scale(f) => if info.spec_has_video_filter(KnownVideoFilter::ScaleCuda) && !s.pixel_format.spec_has_alpha() {
                VideoFilter::ScaleCuda(ScaleCuda {
                    size: f.size,
                    input_is_anamorphic: f.input_is_anamorphic,
                    force_original_aspect_ratio: f.force_original_aspect_ratio,
                })
            } else {
                vf
            },
            VideoFilter::Pad(f) => if info.spec_has_video_filter(KnownVideoFilter::PadCuda) {
                VideoFilter::PadCuda(PadCuda { size: f.size })
            } else {
                vf
            },
            VideoFilter::ToneMap(f) => if s.is_hdr && s.surface == FrameSurface::Vulkan {
                VideoFilter::LibplaceboCuda(LibplaceboCuda {
                    algorithm: f.algorithm,
                    format: if f.output_format == PixelFormat::Yuv420p10le { PixelFormat::P010le } else { PixelFormat::Nv12 },
                })
            } else {
                vf
            },
            VideoFilter::Deinterlace(_) => match info.spec_best_fit(cuda_deinterlacers()) {
                Some(KnownVideoFilter::YadifCuda) => VideoFilter::DeinterlaceCuda(DeinterlaceCuda { filter: CudaDeinterlaceFilter::Yadif }),
                Some(KnownVideoFilter::BwdifCuda) => VideoFilter::DeinterlaceCuda(DeinterlaceCuda { filter: CudaDeinterlaceFilter::Bwdif }),
                _ => vf,
            },
            _ => vf,
        }
    }

    /// The filter to use for `vf` (see `spec_best_filter`).
    pub fn best_filter(&self, vf: &VideoFilter, info: &FfmpegInfo, state: &FrameState) -> (r: VideoFilter)
        ensures
            r == self.spec_best_filter(*vf, *info, state@),
    {
        match vf {
            VideoFilter::Scale(f) => if info.has_video_filter(&KnownVideoFilter::ScaleCuda) && !state.pixel_format.has_alpha() {
                VideoFilter::ScaleCuda(ScaleCuda {
                    size: f.size,
                    input_is_anamorphic: f.input_is_anamorphic,
                    force_original_aspect_ratio: f.force_original_aspect_ratio,
                })
            } else {
                vf.duplicate()
            },
            VideoFilter::Pad(f) => if info.has_video_filter(&KnownVideoFilter::PadCuda) {
                VideoFilter::PadCuda(PadCuda { size: f.size })
            } else {
                vf.duplicate()
            },
            VideoFilter::ToneMap(f) => if state.is_hdr && state.surface == FrameSurface::Vulkan {
                VideoFilter::LibplaceboCuda(LibplaceboCuda {
                    algorithm: crate::pipeline::clone_opt_string(&f.algorithm),
                    format: if f.output_format == PixelFormat::Yuv420p10le { PixelFormat::P010le } else { PixelFormat::Nv12 },
                })
            } else {
                vf.duplicate()
            },
            VideoFilter::Deinterlace(_) => {
                let opts = [KnownVideoFilter::YadifCuda, KnownVideoFilter::BwdifCuda];
                assert(opts@ == cuda_deinterlacers());
                let best = match info.find_best_fit(&opts) {
                    Some(k) => match CudaDeinterlaceFilter::try_from(&k) {
                        Ok(f) => Some(f),
                        Err(_) => None,
                    },
                    None => None,
                };
                match best {
                    Some(f) => VideoFilter::DeinterlaceCuda(DeinterlaceCuda { filter: f }),
                    None => vf.duplicate(),
                }
            },
            _ => vf.duplicate(),
        }
    }
}

impl Cuda {
    pub fn new(capabilities: NvidiaCapabilities) -> (r: Cuda)
        ensures
            r.capabilities == capabilities,
    {
        Cuda { capabilities }
    }
}

/// Scaling on CUDA frames.
#[derive(Debug, Clone, Copy, PartialEq, Eq, Structural)]
pub struct ScaleCuda {
    pub size: Option<FrameSize>,
    pub input_is_anamorphic: bool,
    pub force_original_aspect_ratio: Option<ForceOriginalAspectRatio>,
}

impl ScaleCuda {
    pub open spec fn spec_apply(self, s: FrameStateView) -> FrameStateView {
        rescaled_state(s, self.size, FrameSurface::Cuda)
    }

    pub open spec fn spec_arg(self) -> Option<Seq<char>> {
        match self.size {
            Some(sz) => Some((if self.input_is_anamorphic { "scale_cuda=iw*sar:ih,scale_cuda="@ } else { "scale_cuda="@ })
                + size_text(sz) + aspect_text(self.force_original_aspect_ratio) + ",setsar=1"@),
            None => None,
        }
    }

    pub fn apply_to(&self, state: &mut FrameState)
        ensures
            final(state)@ == self.spec_apply(old(state)@),
    {
        apply_rescaled(state, self.size, FrameSurface::Cuda);
    }

    pub fn as_arg(&self) -> (r: Option<String>)
        ensures
            opt_string_view(r) == self.spec_arg(),
    {
        match self.size {
            Some(sz) => {
                let mut s = if self.input_is_anamorphic {
                    "scale_cuda=iw*sar:ih,scale_cuda=".to_owned()
                } else {
                    "scale_cuda=".to_owned()
                };
                append_size(&mut s, sz);
                append_aspect(&mut s, &self.force_original_aspect_ratio);
                s.append(",setsar=1");
                Some(s)
            },
            None => None,
        }
    }
}

/// Padding on CUDA frames.
#[derive(Debug, Clone, Copy, PartialEq, Eq, Structural)]
pub struct PadCuda {
    pub size: Option<FrameSize>,
}

impl PadCuda {
    pub open spec fn spec_apply(self, s: FrameStateView) -> FrameStateView {
        sized_state(s, self.size, FrameSurface::Cuda)
    }

    pub open spec fn spec_arg(self) -> Option<Seq<char>> {
        match self.size {
            Some(sz) => Some("pad_cuda="@ + size_text(sz) + ":-1:-1:color=black,setsar=1"@),
            None => None,
        }
    }

    pub fn apply_to(&self, state: &mut FrameState)
        ensures
            final(state)@ == self.spec_apply(old(state)@),
    {
        apply_sized(state, self.size, FrameSurface::Cuda);
    }

    pub fn as_arg(&self) -> (r: Option<String>)
        ensures
            opt_string_view(r) == self.spec_arg(),
    {
        match self.size {
            Some(sz) => {
                let mut s = "pad_cuda=".to_owned();
                append_size(&mut s, sz);
                s.append(":-1:-1:color=black,setsar=1");
                Some(s)
            },
            None => None,
        }
    }
}

/// Pixel format conversion on CUDA frames.
#[derive(Debug, Clone, Copy, PartialEq, Eq, Structural)]
pub struct FormatCuda {
    pub format: PixelFormat,
}

impl FormatCuda {
    pub open spec fn spec_apply(self, s: FrameStateView) -> FrameStateView {
        FrameStateView { pixel_format: self.format, surface: FrameSurface::Cuda, ..s }
    }

    pub open spec fn spec_arg(self) -> Option<Seq<char>> {
        Some("scale_cuda=format="@ + self.format.spec_name())
    }

    pub fn apply_to(&self, state: &mut FrameState)
        ensures
            final(state)@ == self.spec_apply(old(state)@),
    {
        state.pixel_format = self.format;
        state.surface = FrameSurface::Cuda;
    }

    pub fn as_arg(&self) -> (r: Option<String>)
        ensures
            opt_string_view(r) == self.spec_arg(),
    {
        let mut s = "scale_cuda=format=".to_owned();
        s.append(self.format.as_arg());
        Some(s)
    }
}

/// An upload that keeps CUDA-decoded frames on CUDA when the decoder falls back
/// to software.
#[derive(Debug, Clone, Copy, PartialEq, Eq, Structural)]
pub struct HwUploadCudaWorkaround;

impl HwUploadCudaWorkaround {
    pub open spec fn spec_apply(self, s: FrameStateView) -> FrameStateView {
        FrameStateView { surface: FrameSurface::Cuda, ..s }
    }

    pub fn apply_to(&self, state: &mut FrameState)
        ensures
            final(state)@ == self.spec_apply(old(state)@),
    {
        state.surface = FrameSurface::Cuda;
    }

    pub fn as_arg(&self) -> (r: Option<String>)
        ensures
            opt_string_view(r) == Some("hwupload"@),
    {
        Some("hwupload".to_owned())
    }
}

/// Tonemapping of Vulkan frames with libplacebo, handing the result to CUDA.
pub struct LibplaceboCuda {
    /// The tonemapping algorithm; linear when absent.
    pub algorithm: Option<String>,
    pub format: PixelFormat,
}

impl LibplaceboCuda {
    pub open spec fn spec_apply(self, s: FrameStateView) -> FrameStateView {
        FrameStateView { pixel_format: self.format, is_hdr: false, surface: FrameSurface::Cuda, ..s }
    }

    /// The Vulkan output format: p016 for p010le, else nv12; p016 is turned back
    /// into p010 on CUDA.
    pub open spec fn spec_arg(self) -> Option<Seq<char>> {
        let vulkan_format = if self.format == PixelFormat::P010le { PixelFormat::P016 } else { PixelFormat::Nv12 };
        let cuda_format = if vulkan_format == PixelFormat::P016 { ",scale_cuda=format=p010"@ } else { ""@ };
        Some("libplacebo=tonemapping="@ + text_or(self.algorithm, "linear"@)
            + ":colorspace=bt709:color_primaries=bt709:color_trc=bt709:format="@ + vulkan_format.spec_name()
            + ",hwupload_cuda"@ + cuda_format)
    }

    pub fn duplicate(&self) -> (r: LibplaceboCuda)
        ensures
            r == *self,
    {
        LibplaceboCuda { algorithm: crate::pipeline::clone_opt_string(&self.algorithm), format: self.format }
    }

    pub fn apply_to(&self, state: &mut FrameState)
        ensures
            final(state)@ == self.spec_apply(old(state)@),
    {
        state.pixel_format = self.format;
        state.is_hdr = false;
        state.surface = FrameSurface::Cuda;
    }

    pub fn as_arg(&self) -> (r: Option<String>)
        ensures
            opt_string_view(r) == self.spec_arg(),
    {
        let vulkan_format = if self.format == PixelFormat::P010le { PixelFormat::P016 } else { PixelFormat::Nv12 };
        let mut s = "libplacebo=tonemapping=".to_owned();
        append_or(&mut s, &self.algorithm, "linear");
        s.append(":colorspace=bt709:color_primaries=bt709:color_trc=bt709:format=");
        s.append(vulkan_format.as_arg());
        s.append(",hwupload_cuda");
        if vulkan_format == PixelFormat::P016 {
            s.append(",scale_cuda=format=p010");
        } else {
            s.append("");
        }
        Some(s)
    }
}

/// The CUDA deinterlacers.
#[derive(Debug, Clone, Copy, PartialEq, Eq, Structural)]
pub enum CudaDeinterlaceFilter {
    Bwdif,
    Yadif,
}

impl CudaDeinterlaceFilter {
    /// The CUDA deinterlacer of a known filter: bwdif_cuda and yadif_cuda have
    /// one, other filters none (with a message naming the filter).
    pub fn try_from(known_filter: &KnownVideoFilter) -> (r: Result<CudaDeinterlaceFilter, String>)
        ensures
            *known_filter == KnownVideoFilter::BwdifCuda ==> r == Ok::<CudaDeinterlaceFilter, String>(CudaDeinterlaceFilter::Bwdif),
            *known_filter == KnownVideoFilter::YadifCuda ==> r == Ok::<CudaDeinterlaceFilter, String>(CudaDeinterlaceFilter::Yadif),
            *known_filter != KnownVideoFilter::BwdifCuda && *known_filter != KnownVideoFilter::YadifCuda
                ==> (r matches Err(m) && m@ == "Unknown cuda deinterlace filter: "@ + known_filter.spec_name()),
    {
        match known_filter {
            KnownVideoFilter::BwdifCuda => Ok(CudaDeinterlaceFilter::Bwdif),
            KnownVideoFilter::YadifCuda => Ok(CudaDeinterlaceFilter::Yadif),
            _ => {
                let mut m = "Unknown cuda deinterlace filter: ".to_owned();
                m.append(known_filter.name());
                Err(m)
            },
        }
    }
}

/// Deinterlacing on CUDA frames.
#[derive(Debug, Clone, Copy, PartialEq, Eq, Structural)]
pub struct DeinterlaceCuda {
    pub filter: CudaDeinterlaceFilter,
}

impl DeinterlaceCuda {
    pub open spec fn spec_apply(self, s: FrameStateView) -> FrameStateView {
        FrameStateView { is_interlaced: false, surface: FrameSurface::Cuda, ..s }
    }

    pub open spec fn spec_arg(self) -> Option<Seq<char>> {
        match self.filter {
            CudaDeinterlaceFilter::Bwdif => Some("bwdif_cuda=1"@),
            CudaDeinterlaceFilter::Yadif => Some("yadif_cuda=1"@),
        }
    }

    pub fn apply_to(&self, state: &mut FrameState)
        ensures
            final(state)@ == self.spec_apply(old(state)@),
    {
        state.is_interlaced = false;
        state.surface = FrameSurface::Cuda;
    }

    pub fn as_arg(&self) -> (r: Option<String>)
        ensures
            opt_string_view(r) == self.spec_arg(),
    {
        match self.filter {
            CudaDeinterlaceFilter::Bwdif => Some("bwdif_cuda=1".to_owned()),
            CudaDeinterlaceFilter::Yadif => Some("yadif_cuda=1".to_owned()),
        }
    }
}

/// Overlaying on CUDA frames.
#[derive(Debug, Clone, Copy, PartialEq, Eq, Structural)]
pub struct CudaOverlay;

} // verus!
