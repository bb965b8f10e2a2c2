use vstd::prelude::*;
use crate::capabilities::rkmpp::RkmppCapabilities;
use crate::ffmpeg_info::{FfmpegInfo, KnownVideoFilter};
use crate::frame_size::FrameSize;
use crate::pipeline::{opt_string_view, FrameState, FrameStateView, FrameSurface, PixelFormat};
use crate::video_filter::{VideoFilter, append_wh, apply_rescaled, rescaled_state, wh_text};

verus! {

/// Rockchip MPP acceleration.
pub struct Rkmpp {
    pub capabilities: RkmppCapabilities,
}

impl Rkmpp {
    /// scale_rkrga for a scale of 8-bit frames when ffmpeg offers it; `vf` itself otherwise.
    pub open spec fn spec_best_filter(&self, vf: VideoFilter, info: FfmpegInfo, s: FrameStateView) -> VideoFilter {
        match vf {
            VideoFilter::Scale(f) => if info.spec_has_video_filter(KnownVideoFilter::ScaleRkrga) && s.pixel_format.spec_bit_depth() == 8 {
                VideoFilter::ScaleRkrga(ScaleRkrga { size: f.size, input_is_anamorphic: f.input_is_anamorphic })
            } else {
                vf
            },
            _ => vf,
        }
    }

    /// The filter to use for `vf` (see `spec_best_filter`).
    pub fn best_filter(&self, vf: &VideoFilter, info: &FfmpegInfo, state: &FrameState) -> (r: VideoFilter)
        ensures
            r == self.spec_best_filter(*vf, *info, state@),
    {
        match vf {
            VideoFilter::Scale(f) => if info.has_video_filter(&KnownVideoFilter::ScaleRkrga) && state.pixel_format.bit_depth() == 8 {
                VideoFilter::ScaleRkrga(ScaleRkrga { size: f.size, input_is_anamorphic: f.input_is_anamorphic })
            } else {
                vf.duplicate()
            },
            _ => vf.duplicate(),
        }
    }
}

/// Scaling with the Rockchip RGA.
#[derive(Debug, Clone, Copy, PartialEq, Eq, Structural)]
pub struct ScaleRkrga {
    pub size: Option<FrameSize>,
    pub input_is_anamorphic: bool,
}

impl ScaleRkrga {
    pub open spec fn spec_apply(self, s: FrameStateView) -> FrameStateView {
        rescaled_state(s, self.size, FrameSurface::Rkmpp)
    }

    pub open spec fn spec_arg(self) -> Option<Seq<char>> {
        match self.size {
            Some(sz) => Some((if self.input_is_anamorphic { "scale_rkrga=w=iw*sar:h=ih,scale_rkrga="@ } else { "scale_rkrga="@ })
                + wh_text(sz) + ":force_original_aspect_ratio=0,setsar=1"@),
            None => None,
        }
    }

    pub fn apply_to(&self, state: &mut FrameState)
        ensures
            final(state)@ == self.spec_apply(old(state)@),
    {
        apply_rescaled(state, self.size, FrameSurface::Rkmpp);
    }

    pub fn as_arg(&self) -> (r: Option<String>)
        ensures
            opt_string_view(r) == self.spec_arg(),
    {
        match self.size {
            Some(sz) => {
                let mut s = if self.input_is_anamorphic {
                    "scale_rkrga=w=iw*sar:h=ih,scale_rkrga=".to_owned()
                } else {
                    "scale_rkrga=".to_owned()
                };
                append_wh(&mut s, sz);
                s.append(":force_original_aspect_ratio=0,setsar=1");
                Some(s)
            },
            None => None,
        }
    }
}

/// Pixel format conversion with the Rockchip RGA.
#[derive(Debug, Clone, Copy, PartialEq, Eq, Structural)]
pub struct FormatRkrga {
    pub format: PixelFormat,
}

impl FormatRkrga {
    pub open spec fn spec_apply(self, s: FrameStateView) -> FrameStateView {
        FrameStateView { pixel_format: self.format, surface: FrameSurface::Rkmpp, ..s }
    }

    pub open spec fn spec_arg(self) -> Option<Seq<char>> {
        Some("scale_rkrga=format="@ + self.format.spec_name())
    }

    pub fn apply_to(&self, state: &mut FrameState)
        ensures
            final(state)@ == self.spec_apply(old(state)@),
    {
        state.pixel_format = self.format;
        state.surface = FrameSurface::Rkmpp;
    }

    pub fn as_arg(&self) -> (r: Option<String>)
        ensures
            opt_string_view(r) == self.spec_arg(),
    {
        let mut s = "scale_rkrga=format=".to_owned();
        s.append(self.format.as_arg());
        Some(s)
    }
}

} // verus!
