use vstd::prelude::*;
use crate::ffmpeg_info::{FfmpegInfo, KnownVideoFilter};
use crate::frame_size::FrameSize;
use crate::pipeline::{opt_string_view, FrameState, FrameStateView, FrameSurface, PixelFormat};
use crate::video_filter::{VideoFilter, append_or, append_size, apply_rescaled, rescaled_state, size_text, text_or};

verus! {

/// Vulkan acceleration.
#[derive(Debug, Clone, Copy, PartialEq, Eq, Structural)]
pub struct Vulkan;

impl Vulkan {
    /// scale_vulkan for a scale of 8-bit frames and libplacebo for a tonemap, each
    /// when ffmpeg offers it; `vf` itself otherwise.
    pub open spec fn spec_best_filter(&self, vf: VideoFilter, info: FfmpegInfo, s: FrameStateView) -> VideoFilter {
        match vf {
            VideoFilter::Scale(f) => if info.spec_has_video_filter(KnownVideoFilter::ScaleVulkan) && s.pixel_format.spec_bit_depth() == 8 {
                VideoFilter::ScaleVulkan(ScaleVulkan { size: f.size, input_is_anamorphic: f.input_is_anamorphic })
            } else {
                vf
            },
            VideoFilter::ToneMap(f) => if info.spec_has_video_filter(KnownVideoFilter::LibPlacebo) {
                VideoFilter::LibplaceboVulkan(LibplaceboVulkan {
                    algorithm: f.algorithm,
                    format: if f.output_format == PixelFormat::Yuv420p10le { PixelFormat::P010le } else { PixelFormat::Nv12 },
                })
            } else {
                vf
            },
            _ => vf,
        }
    }

    /// The filter to use for `vf` (see `spec_best_filter`).
    pub fn best_filter(&self, vf: &VideoFilter, info: &FfmpegInfo, state: &FrameState) -> (r: VideoFilter)
        ensures
            r == self.spec_best_filter(*vf, *info, state@),
    {
        match vf {
            VideoFilter::Scale(f) => if info.has_video_filter(&KnownVideoFilter::ScaleVulkan) && state.pixel_format.bit_depth() == 8 {
                VideoFilter::ScaleVulkan(ScaleVulkan { size: f.size, input_is_anamorphic: f.input_is_anamorphic })
            } else {
                vf.duplicate()
            },
            VideoFilter::ToneMap(f) => if info.has_video_filter(&KnownVideoFilter::LibPlacebo) {
                VideoFilter::LibplaceboVulkan(LibplaceboVulkan {
                    algorithm: crate::pipeline::clone_opt_string(&f.algorithm),
                    format: if f.output_format == PixelFormat::Yuv420p10le { PixelFormat::P010le } else { PixelFormat::Nv12 },
                })
            } else {
                vf.duplicate()
            },
            _ => vf.duplicate(),
        }
    }
}

/// Pixel format conversion on Vulkan frames.
#[derive(Debug, Clone, Copy, PartialEq, Eq, Structural)]
pub struct FormatVulkan {
    pub format: PixelFormat,
}

impl FormatVulkan {
    pub open spec fn spec_apply(self, s: FrameStateView) -> FrameStateView {
        FrameStateView { pixel_format: self.format, ..s }
    }

    pub open spec fn spec_arg(self) -> Option<Seq<char>> {
        Some("scale_vulkan=format="@ + self.format.spec_name())
    }

    pub fn apply_to(&self, state: &mut FrameState)
        ensures
            final(state)@ == self.spec_apply(old(state)@),
    {
        state.pixel_format = self.format;
    }

    pub fn as_arg(&self) -> (r: Option<String>)
        ensures
            opt_string_view(r) == self.spec_arg(),
    {
        let mut s = "scale_vulkan=format=".to_owned();
        s.append(self.format.as_arg());
        Some(s)
    }
}

/// Tonemapping on Vulkan frames with libplacebo.
pub struct LibplaceboVulkan {
    /// The tonemapping algorithm; linear when absent.
    pub algorithm: Option<String>,
    pub format: PixelFormat,
}

impl LibplaceboVulkan {
    pub open spec fn spec_apply(self, s: FrameStateView) -> FrameStateView {
        FrameStateView { pixel_format: self.format, is_hdr: false, ..s }
    }

    pub open spec fn spec_arg(self) -> Option<Seq<char>> {
        Some("libplacebo=tonemapping="@ + text_or(self.algorithm, "linear"@)
            + ":colorspace=bt709:color_primaries=bt709:color_trc=bt709:format="@ + self.format.spec_name())
    }

    pub fn duplicate(&self) -> (r: LibplaceboVulkan)
        ensures
            r == *self,
    {
        LibplaceboVulkan { algorithm: crate::pipeline::clone_opt_string(&self.algorithm), format: self.format }
    }

    pub fn apply_to(&self, state: &mut FrameState)
        ensures
            final(state)@ == self.spec_apply(old(state)@),
    {
        state.pixel_format = self.format;
        state.is_hdr = false;
    }

    pub fn as_arg(&self) -> (r: Option<String>)
        ensures
            opt_string_view(r) == self.spec_arg(),
    {
        let mut s = "libplacebo=tonemapping=".to_owned();
        append_or(&mut s, &self.algorithm, "linear");
        s.append(":colorspace=bt709:color_primaries=bt709:color_trc=bt709:format=");
        s.append(self.format.as_arg());
        Some(s)
    }
}

/// Scaling on Vulkan frames.
#[derive(Debug, Clone, Copy, PartialEq, Eq, Structural)]
pub struct ScaleVulkan {
    pub size: Option<FrameSize>,
    pub input_is_anamorphic: bool,
}

impl ScaleVulkan {
    pub open spec fn spec_apply(self, s: FrameStateView) -> FrameStateView {
        rescaled_state(s, self.size, FrameSurface::Vulkan)
    }

    pub open spec fn spec_arg(self) -> Option<Seq<char>> {
        match self.size {
            Some(sz) => if self.input_is_anamorphic {
                Some("scale_vulkan=iw*sar:ih,setsar=1,scale_vulkan="@ + size_text(sz))
            } else {
                Some("scale_vulkan="@ + size_text(sz) + ",setsar=1"@)
            },
            None => None,
        }
    }

    pub fn apply_to(&self, state: &mut FrameState)
        ensures
            final(state)@ == self.spec_apply(old(state)@),
    {
        apply_rescaled(state, self.size, FrameSurface::Vulkan);
    }

    pub fn as_arg(&self) -> (r: Option<String>)
        ensures
            opt_string_view(r) == self.spec_arg(),
    {
        match self.size {
            Some(sz) => if self.input_is_anamorphic {
                let mut s = "scale_vulkan=iw*sar:ih,setsar=1,scale_vulkan=".to_owned();
                append_size(&mut s, sz);
                Some(s)
            } else {
                let mut s = "scale_vulkan=".to_owned();
                append_size(&mut s, sz);
                s.append(",setsar=1");
                Some(s)
            },
            None => None,
        }
    }
}

} // verus!
