use vstd::prelude::*;
use crate::capabilities::qsv::QsvCapabilities;
use crate::ffmpeg_info::{FfmpegInfo, KnownVideoFilter};
use crate::frame_size::FrameSize;
use crate::pipeline::{opt_string_view, FrameState, FrameStateView, FrameSurface, PixelFormat};
use crate::video_filter::{VideoFilter, append_wh, apply_rescaled, rescaled_state, wh_text};

verus! {

/// Intel Quick Sync Video acceleration.
pub struct Qsv {
    pub capabilities: QsvCapabilities,
}

impl Qsv {
    /// vpp_qsv for a scale and deinterlace_qsv for a deinterlace, each when ffmpeg
    /// offers it; `vf` itself otherwise.
    pub open spec fn spec_best_filter(&self, vf: VideoFilter, info: FfmpegInfo) -> VideoFilter {
        match vf {
            VideoFilter::Scale(f) => if info.spec_has_video_filter(KnownVideoFilter::VppQsv) {
                VideoFilter::ScaleQsv(ScaleQsv { size: f.size, input_is_anamorphic: f.input_is_anamorphic })
            } else {
                vf
            },
            VideoFilter::Deinterlace(_) => if info.spec_has_video_filter(KnownVideoFilter::DeinterlaceQsv) {
                VideoFilter::DeinterlaceQsv(DeinterlaceQsv)
            } else {
                vf
            },
            _ => vf,
        }
    }

    /// The filter to use for `vf` (see `spec_best_filter`).
    pub fn best_filter(&self, vf: &VideoFilter, info: &FfmpegInfo) -> (r: VideoFilter)
        ensures
            r == self.spec_best_filter(*vf, *info),
    {
        match vf {
            VideoFilter::Scale(f) => if info.has_video_filter(&KnownVideoFilter::VppQsv) {
                VideoFilter::ScaleQsv(ScaleQsv { size: f.size, input_is_anamorphic: f.input_is_anamorphic })
            } else {
                vf.duplicate()
            },
            VideoFilter::Deinterlace(_) => if info.has_video_filter(&KnownVideoFilter::DeinterlaceQsv) {
                VideoFilter::DeinterlaceQsv(DeinterlaceQsv)
            } else {
                vf.duplicate()
            },
            _ => vf.duplicate(),
        }
    }
}

/// Scaling with the QSV video processor.
#[derive(Debug, Clone, Copy, PartialEq, Eq, Structural)]
pub struct ScaleQsv {
    pub size: Option<FrameSize>,
    pub input_is_anamorphic: bool,
}

impl ScaleQsv {
    pub open spec fn spec_apply(self, s: FrameStateView) -> FrameStateView {
        rescaled_state(s, self.size, FrameSurface::Qsv)
    }

    pub open spec fn spec_arg(self) -> Option<Seq<char>> {
        match self.size {
            Some(sz) => Some((if self.input_is_anamorphic { "vpp_qsv=w=iw*sar:h=ih,vpp_qsv="@ } else { "vpp_qsv="@ })
                + wh_text(sz) + ",setsar=1"@),
            None => None,
        }
    }

    pub fn apply_to(&self, state: &mut FrameState)
        ensures
            final(state)@ == self.spec_apply(old(state)@),
    {
        apply_rescaled(state, self.size, FrameSurface::Qsv);
    }

    pub fn as_arg(&self) -> (r: Option<String>)
        ensures
            opt_string_view(r) == self.spec_arg(),
    {
        match self.size {
            Some(sz) => {
                let mut s = if self.input_is_anamorphic {
                    "vpp_qsv=w=iw*sar:h=ih,vpp_qsv=".to_owned()
                } else {
                    "vpp_qsv=".to_owned()
                };
                append_wh(&mut s, sz);
                s.append(",setsar=1");
                Some(s)
            },
            None => None,
        }
    }
}

/// Pixel format conversion with the QSV video processor.
#[derive(Debug, Clone, Copy, PartialEq, Eq, Structural)]
pub struct FormatQsv {
    pub format: PixelFormat,
}

impl FormatQsv {
    pub open spec fn spec_apply(self, s: FrameStateView) -> FrameStateView {
        FrameStateView { pixel_format: self.format, surface: FrameSurface::Qsv, ..s }
    }

    pub open spec fn spec_arg(self) -> Option<Seq<char>> {
        Some("vpp_qsv=format="@ + self.format.spec_name())
    }

    pub fn apply_to(&self, state: &mut FrameState)
        ensures
            final(state)@ == self.spec_apply(old(state)@),
    {
        state.pixel_format = self.format;
        state.surface = FrameSurface::Qsv;
    }

    pub fn as_arg(&self) -> (r: Option<String>)
        ensures
            opt_string_view(r) == self.spec_arg(),
    {
        let mut s = "vpp_qsv=format=".to_owned();
        s.append(self.format.as_arg());
        Some(s)
    }
}

/// Deinterlacing on QSV frames.
#[derive(Debug, Clone, Copy, PartialEq, Eq, Structural)]
pub struct DeinterlaceQsv;

impl DeinterlaceQsv {
    pub open spec fn spec_apply(self, s: FrameStateView) -> FrameStateView {
        FrameStateView { is_interlaced: false, surface: FrameSurface::Qsv, ..s }
    }

    pub fn apply_to(&self, state: &mut FrameState)
        ensures
            final(state)@ == self.spec_apply(old(state)@),
    {
        state.is_interlaced = false;
        state.surface = FrameSurface::Qsv;
    }

    pub fn as_arg(&self) -> (r: Option<String>)
        ensures
            opt_string_view(r) == Some("deinterlace_qsv"@),
    {
        Some("deinterlace_qsv".to_owned())
    }
}

} // verus!
