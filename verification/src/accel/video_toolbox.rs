use vstd::prelude::*;
use crate::capabilities::videotoolbox::VideoToolboxCapabilities;
use crate::ffmpeg_info::{FfmpegInfo, KnownVideoFilter};
use crate::frame_size::FrameSize;
use crate::pipeline::{opt_string_view, FrameState, FrameStateView, FrameSurface};
use crate::video_filter::{VideoFilter, append_size, apply_rescaled, rescaled_state, size_text};

verus! {

/// Apple VideoToolbox acceleration.
pub struct VideoToolbox {
    pub capabilities: VideoToolboxCapabilities,
}

impl VideoToolbox {
    pub fn new(capabilities: VideoToolboxCapabilities) -> (r: VideoToolbox)
        ensures
            r.capabilities == capabilities,
    {
        VideoToolbox { capabilities }
    }
}

impl VideoToolbox {
    /// scale_vt for a scale when ffmpeg offers it; `vf` itself otherwise.
    pub open spec fn spec_best_filter(&self, vf: VideoFilter, info: FfmpegInfo) -> VideoFilter {
        match vf {
            VideoFilter::Scale(f) => if info.spec_has_video_filter(KnownVideoFilter::ScaleVt) {
                VideoFilter::ScaleVt(ScaleVt { size: f.size, input_is_anamorphic: f.input_is_anamorphic })
            } else {
                vf
            },
            _ => vf,
        }
    }

    /// The filter to use for `vf` (see `spec_best_filter`).
    pub fn best_filter(&self, vf: &VideoFilter, info: &FfmpegInfo) -> (r: VideoFilter)
        ensures
            r == self.spec_best_filter(*vf, *info),
    {
        match vf {
            VideoFilter::Scale(f) => if info.has_video_filter(&KnownVideoFilter::ScaleVt) {
                VideoFilter::ScaleVt(ScaleVt { size: f.size, input_is_anamorphic: f.input_is_anamorphic })
            } else {
                vf.duplicate()
            },
            _ => vf.duplicate(),
        }
    }
}

/// Scaling on VideoToolbox frames.
#[derive(Debug, Clone, Copy, PartialEq, Eq, Structural)]
pub struct ScaleVt {
    pub size: Option<FrameSize>,
    pub input_is_anamorphic: bool,
}

impl ScaleVt {
    pub open spec fn spec_apply(self, s: FrameStateView) -> FrameStateView {
        rescaled_state(s, self.size, FrameSurface::VideoToolbox)
    }

    pub open spec fn spec_arg(self) -> Option<Seq<char>> {
        match self.size {
            Some(sz) => Some((if self.input_is_anamorphic { "scale_vt=iw*sar:ih,scale_vt="@ } else { "scale_vt="@ })
                + size_text(sz) + ",setsar=1"@),
            None => None,
        }
    }

    pub fn apply_to(&self, state: &mut FrameState)
        ensures
            final(state)@ == self.spec_apply(old(state)@),
    {
        apply_rescaled(state, self.size, FrameSurface::VideoToolbox);
    }

    pub fn as_arg(&self) -> (r: Option<String>)
        ensures
            opt_string_view(r) == self.spec_arg(),
    {
        match self.size {
            Some(sz) => {
                let mut s = if self.input_is_anamorphic {
                    "scale_vt=iw*sar:ih,scale_vt=".to_owned()
                } else {
                    "scale_vt=".to_owned()
                };
                append_size(&mut s, sz);
                s.append(",setsar=1");
                Some(s)
            },
            None => None,
        }
    }
}

} // verus!
